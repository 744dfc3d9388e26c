use base64::Engine;
use dcs_grpc::audio::{gcloud_frames, ogg_frames, AudioError};
use ogg::writing::{PacketWriteEndInfo, PacketWriter};

fn ogg_stream(packets: &[&[u8]]) -> Vec<u8> {
    let mut writer = PacketWriter::new(Vec::new());
    for (i, packet) in packets.iter().enumerate() {
        let end = if i + 1 == packets.len() {
            PacketWriteEndInfo::EndStream
        } else {
            PacketWriteEndInfo::NormalPacket
        };
        writer.write_packet(packet.to_vec(), 7, end, 0).unwrap();
    }
    writer.into_inner()
}

#[test]
fn ogg_streams_are_taken_apart_into_their_packets() {
    let data = ogg_stream(&[&[1, 2, 3], &[4, 5], &[6]]);
    assert_eq!(ogg_frames(data).unwrap(), vec![vec![1, 2, 3], vec![4, 5], vec![6]]);
}

#[test]
fn data_that_is_no_ogg_stream_is_refused() {
    assert_eq!(ogg_frames(b"RIFF....WAVE".to_vec()), Err(AudioError::Ogg));
    assert_eq!(ogg_frames(Vec::new()), Err(AudioError::Ogg));
}

#[test]
fn gcloud_audio_is_base64_text_of_an_ogg_stream() {
    let data = ogg_stream(&[&[9, 8, 7], &[6, 5]]);
    let text = base64::engine::general_purpose::STANDARD.encode(&data);
    assert_eq!(gcloud_frames(&text).unwrap(), vec![vec![9, 8, 7], vec![6, 5]]);
}

#[test]
fn gcloud_audio_errors() {
    assert_eq!(gcloud_frames("not base64!"), Err(AudioError::Base64));
    // a stray bit in the last character is not the canonical text of any bytes
    assert_eq!(gcloud_frames("QR=="), Err(AudioError::Base64));
    assert_eq!(gcloud_frames("QQ=="), Err(AudioError::Ogg));
    assert_eq!(AudioError::Base64.message(), "failed to base64 decode audio data");
    assert_eq!(AudioError::Ogg.message(), "error reading ogg packet");
}
