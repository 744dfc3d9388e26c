use dcs_grpc::abortable::{AbortableStream, PollStep, StreamPoll};
use dcs_grpc::decimal::{i64_to_decimal, u64_to_decimal};
use dcs_grpc::mission_time::{format_datetime, session_flag_name, session_id, to_datetime, ScenarioDateTime};
use dcs_grpc::plugins::{load, plugin_authority, plugin_uri, PluginDirEntry};
use dcs_grpc::stats::Stats;
use dcs_grpc::status::Code;

#[test]
fn plugins_get_consecutive_ports() {
    let entries = vec![
        PluginDirEntry::Found { name: "a".to_string(), is_dir: true, has_executable: true },
        PluginDirEntry::Unreadable,
        PluginDirEntry::Found { name: "file.txt".to_string(), is_dir: false, has_executable: false },
        PluginDirEntry::Found { name: "noexe".to_string(), is_dir: true, has_executable: false },
        PluginDirEntry::Found { name: "b".to_string(), is_dir: true, has_executable: true },
    ];
    let plugins = load(&entries);
    assert_eq!(plugins.len(), 2);
    assert_eq!((plugins[0].name.as_str(), plugins[0].port), ("a", 50500));
    assert_eq!((plugins[1].name.as_str(), plugins[1].port), ("b", 50501));
    assert!(load(&vec![]).is_empty());
    assert_eq!(plugin_authority(50500), "localhost:50500");
    assert_eq!(plugin_uri(50501, Some("/dcs.mission.v0.MissionService/GetTime?x=1")), "http://localhost:50501/dcs.mission.v0.MissionService/GetTime?x=1");
    assert_eq!(plugin_uri(50500, None), "http://localhost:50500/");
}

#[test]
fn abortable_stream_ends_for_good() {
    let mut s = AbortableStream::new();
    assert_eq!(s.begin_poll(false), PollStep::PollInner);
    assert_eq!(s.finish_poll(StreamPoll::Item(1)), StreamPoll::Item(1));
    assert_eq!(s.begin_poll(false), PollStep::PollInner);
    assert_eq!(s.finish_poll::<u8>(StreamPoll::Pending), StreamPoll::Pending);
    assert_eq!(s.size_hint((3, Some(3))), (3, Some(3)));
    assert_eq!(s.begin_poll(true), PollStep::Finish);
    assert_eq!(s.begin_poll(false), PollStep::Finish);
    assert_eq!(s.size_hint((3, Some(3))), (0, Some(0)));

    let mut t = AbortableStream::new();
    assert_eq!(t.begin_poll(false), PollStep::PollInner);
    assert_eq!(t.finish_poll::<u8>(StreamPoll::End), StreamPoll::End);
    assert_eq!(t.begin_poll(false), PollStep::Finish);
}

#[test]
fn stats_count_and_reset() {
    let mut s = Stats::new();
    s.track_call();
    s.track_block_time();
    s.track_event();
    assert_eq!((s.calls_count, s.events_count), (1, 1));
    s.track_queue_size();
    s.track_queue_size();
    s.record_queue_size();
    s.untrack_queue_size();
    s.record_queue_size();
    assert_eq!((s.queue_size, s.queue_size_total, s.queue_size_highest), (1, 3, 2));
    s.add_block_time(1500);
    s.add_block_time(u128::MAX);
    assert_eq!(s.nanoseconds_waited, 1499);
    let waited = s.start_interval();
    assert_eq!(waited, 1499);
    assert_eq!((s.calls_count, s.events_count, s.queue_size, s.queue_size_total), (0, 1, 1, 0));
    let mut w = Stats::new();
    w.untrack_queue_size();
    assert_eq!(w.queue_size, u32::MAX);
    w.track_queue_size();
    assert_eq!(w.queue_size, 0);
}

#[test]
fn scenario_dates_are_checked_and_formatted() {
    let dt = to_datetime(2011, 6, 1, 3600 * 8 + 61).unwrap();
    assert_eq!(
        dt,
        ScenarioDateTime { year: 2011, month: 6, day: 1, hour: 8, minute: 1, second: 1 }
    );
    assert_eq!(format_datetime(&dt).unwrap(), "2011-06-01T08:01:01Z");
    // the time of day wraps around midnight
    let t = to_datetime(2016, 2, 29, 86400 + 5).unwrap();
    assert_eq!((t.hour, t.minute, t.second), (0, 0, 5));
    let t = to_datetime(2016, 2, 29, -1).unwrap();
    assert_eq!((t.hour, t.minute, t.second), (23, 59, 59));
    let e = to_datetime(2015, 2, 29, 0).unwrap_err();
    assert_eq!((e.code, e.message.as_str()), (Code::Internal, "received invalid date: day was not in range"));
    let e = to_datetime(2015, 13, 1, 0).unwrap_err();
    assert_eq!(e.message, "received invalid month: month was not in range");
    let e = to_datetime(2015, 256, 1, 0).unwrap_err();
    assert_eq!(e.message, "received invalid month: out of range integral type conversion attempted");
    let e = to_datetime(2015, 1, 300, 0).unwrap_err();
    assert_eq!(e.message, "received invalid day: out of range integral type conversion attempted");
    let e = to_datetime(10000, 1, 1, 0).unwrap_err();
    assert_eq!(e.message, "received invalid date: year was not in range");
    let old = to_datetime(-44, 3, 15, 0).unwrap();
    let e = format_datetime(&old).unwrap_err();
    assert_eq!(
        e.message,
        "failed to format date as ISO 8601 string: The year component cannot be formatted into the requested format."
    );
    assert_eq!(format_datetime(&to_datetime(5, 12, 31, 86399).unwrap()).unwrap(), "0005-12-31T23:59:59Z");
}

#[test]
fn session_ids_are_kept_per_mission() {
    assert_eq!(session_flag_name(), "dcs_grpc_session_id");
    let fresh = session_id(0, 1_700_000_000);
    assert_eq!(fresh.session_id, 1_700_000_000);
    assert_eq!(fresh.store_flag, Some(1_700_000_000));
    let kept = session_id(1_700_000_000, 1_800_000_000);
    assert_eq!(kept.session_id, 1_700_000_000);
    assert_eq!(kept.store_flag, None);
    assert_eq!(session_id(0, 1 << 33).store_flag, Some(0));
}

#[test]
fn decimal_text() {
    assert_eq!(u64_to_decimal(0), "0");
    assert_eq!(u64_to_decimal(u64::MAX), u64::MAX.to_string());
    assert_eq!(i64_to_decimal(-1205), "-1205");
    assert_eq!(i64_to_decimal(i64::MIN), i64::MIN.to_string());
}

#[test]
fn queue_size_counts_the_waiting_calls() {
    let mut s = Stats::new();
    s.track_queue_size();
    s.track_queue_size();
    s.track_queue_size();
    s.untrack_queue_size();
    assert_eq!(s.queue_size, 2);
    s.untrack_queue_size();
    s.untrack_queue_size();
    assert_eq!(s.queue_size, 0);
    let before = s;
    s.track_block_time();
    assert_eq!(s, before);
}
