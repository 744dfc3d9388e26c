//! The state behind a stream of unit updates: which units are known, when each is
//! checked again for movement, and which updates the stream sends.
//!
//! Times of the mission are carried as the bit patterns of the floating-point seconds
//! that DCS reports (`time_bits`); the library passes them on without reading them.
//! Instants of the host's monotonic clock are nanoseconds (`now`).
use vstd::prelude::*;

use crate::geometry::{
    orientation_equalish, orientations_close, position_equalish, positions_close,
    velocities_close, velocity_equalish, Orientation, Position, Velocity,
};
use crate::status::{opt_view, Code, RpcStatus};

verus! {

/// The group a unit belongs to.
#[derive(Debug)]
pub struct Group {
    pub id: u32,
    pub name: String,
    pub coalition: i32,
    pub category: i32,
}

impl Group {
    /// A copy of the group.
    pub fn duplicate(&self) -> (r: Group)
        ensures
            r == *self,
    {
        Group {
            id: self.id,
            name: self.name.clone(),
            coalition: self.coalition,
            category: self.category,
        }
    }
}

/// A unit of the mission, as the stream reports it.
#[derive(Debug)]
pub struct Unit {
    pub id: u32,
    pub name: String,
    pub callsign: String,
    pub coalition: i32,
    pub unit_type: String,
    pub position: Option<Position>,
    pub orientation: Option<Orientation>,
    pub velocity: Option<Velocity>,
    pub player_name: Option<String>,
    pub group: Option<Group>,
    pub number_in_group: u32,
}

impl Unit {
    /// A copy of the unit.
    pub fn duplicate(&self) -> (r: Unit)
        ensures
            r == *self,
    {
        Unit {
            id: self.id,
            name: self.name.clone(),
            callsign: self.callsign.clone(),
            coalition: self.coalition,
            unit_type: self.unit_type.clone(),
            position: self.position,
            orientation: self.orientation,
            velocity: self.velocity,
            player_name: match &self.player_name {
                Some(p) => Some(p.clone()),
                None => None,
            },
            group: match &self.group {
                Some(g) => Some(g.duplicate()),
                None => None,
            },
            number_in_group: self.number_in_group,
        }
    }
}

/// The highest group category number that the protocol defines.
pub open spec fn max_group_category() -> i32 {
    5
}

/// A group category number as the stream understands it: a number the protocol does not
/// define stands for "unspecified" (0).
pub open spec fn effective_category(c: i32) -> i32 {
    if 0 <= c <= max_group_category() {
        c
    } else {
        0
    }
}

/// A group category number as the stream understands it.
pub fn group_category(c: i32) -> (r: i32)
    ensures
        r == effective_category(c),
{
    if 0 <= c && c <= 5 {
        c
    } else {
        0
    }
}

/// The category of a unit: that of its group, "unspecified" for a unit without one.
pub open spec fn unit_category(u: Unit) -> i32 {
    match u.group {
        Some(g) => effective_category(g.category),
        None => 0,
    }
}

/// Whether a stream that watches the category `filter` reports a unit of the category
/// `category`: the unspecified filter (0) watches every category.
pub open spec fn category_watched(filter: i32, category: i32) -> bool {
    filter == category || filter == 0
}

/// The settings of one units stream.
#[derive(Clone, Copy, Debug, PartialEq, Eq, Structural)]
pub struct StreamSettings {
    /// Seconds between two checks of the units.
    pub poll_rate_secs: u64,
    /// The longest wait, in seconds, before a unit that does not move is checked again.
    pub max_backoff_secs: u64,
    /// The group category that the stream watches (0: every category).
    pub category: i32,
}

impl StreamSettings {
    /// The settings of a stream request: a poll rate of 5 seconds and a longest wait of 30
    /// seconds unless the request says otherwise, where the longest wait is never shorter
    /// than the poll rate.
    pub fn from_request(poll_rate: Option<u32>, max_backoff: Option<u32>, category: i32) -> (r:
        StreamSettings)
        ensures
            r.poll_rate_secs == match poll_rate {
                Some(p) => p,
                None => 5u32,
            },
            r.max_backoff_secs == ({
                let m = match max_backoff {
                    Some(m) => m,
                    None => 30u32,
                };
                if m >= r.poll_rate_secs {
                    m as u64
                } else {
                    r.poll_rate_secs
                }
            }),
            r.category == effective_category(category),
            r.poll_rate_secs <= r.max_backoff_secs <= u32::MAX,
    {
        let poll: u32 = match poll_rate {
            Some(p) => p,
            None => 5,
        };
        let max: u32 = match max_backoff {
            Some(m) => m,
            None => 30,
        };
        let max: u32 = if max >= poll {
            max
        } else {
            poll
        };
        StreamSettings {
            poll_rate_secs: poll as u64,
            max_backoff_secs: max as u64,
            category: group_category(category),
        }
    }

    /// Whether the settings are those of a request.
    pub open spec fn wf(&self) -> bool {
        self.poll_rate_secs <= self.max_backoff_secs <= u32::MAX
    }
}

/// The wait after a check that found a unit unchanged: the poll rate after a change, else
/// twice the previous wait, but never longer than the longest wait.
pub open spec fn next_backoff(current: u64, settings: StreamSettings) -> u64 {
    if current == 0 {
        settings.poll_rate_secs
    } else if current * 2 <= settings.max_backoff_secs {
        (current * 2) as u64
    } else {
        settings.max_backoff_secs
    }
}

/// The wait after a check that found a unit unchanged.
pub fn backoff_after_unchanged(current: u64, settings: &StreamSettings) -> (r: u64)
    requires
        settings.wf(),
        current <= settings.max_backoff_secs,
    ensures
        r == next_backoff(current, *settings),
        r <= settings.max_backoff_secs,
        current != 0 ==> current <= r,
{
    if current == 0 {
        settings.poll_rate_secs
    } else if current * 2 <= settings.max_backoff_secs {
        current * 2
    } else {
        settings.max_backoff_secs
    }
}

/// What the stream knows about one unit, and when to check it again.
#[derive(Debug)]
pub struct UnitState {
    pub unit: Unit,
    /// Seconds to wait after the last check before the next one.
    pub backoff_secs: u64,
    /// The mission time of the last update, as floating-point bits.
    pub update_time_bits: u64,
    /// When the unit was last checked.
    pub last_checked: u128,
    /// When the unit was last seen to change.
    pub last_changed: u128,
    /// Whether the unit was found to be gone.
    pub is_gone: bool,
}

/// The state of a unit that was just learned of at the instant `now`.
pub open spec fn fresh_state(unit: Unit, now: u128) -> UnitState {
    UnitState {
        unit,
        backoff_secs: 0,
        update_time_bits: 0,
        last_checked: now,
        last_changed: now,
        is_gone: false,
    }
}

impl UnitState {
    /// The state of a unit that was just learned of: to be checked at the next poll.
    pub fn new(unit: Unit, now: u128) -> (r: UnitState)
        ensures
            r == fresh_state(unit, now),
    {
        UnitState {
            unit,
            backoff_secs: 0,
            update_time_bits: 0,
            last_checked: now,
            last_changed: now,
            is_gone: false,
        }
    }

    /// Whether the unit is due to be checked at the instant `now`: its wait has passed
    /// since its last check.
    pub fn should_update(&self, now: u128) -> (r: bool)
        ensures
            r == (now >= self.last_checked && now - self.last_checked >= self.backoff_secs
                * 1_000_000_000),
    {
        now >= self.last_checked && now - self.last_checked >= (self.backoff_secs as u128)
            * 1_000_000_000
    }

    /// Takes over the report `t` of a check at the instant `now`, and answers whether the
    /// unit changed: a placement that differs from the known one (beyond the tolerances)
    /// replaces it and resets the wait to nothing; otherwise the wait becomes the poll rate
    /// after a change, else twice as long, but never longer than the longest wait.
    pub fn update(&mut self, t: Transform, now: u128, settings: &StreamSettings) -> (changed:
        bool)
        requires
            settings.wf(),
            old(self).backoff_secs <= settings.max_backoff_secs,
        ensures
            changed == transform_changes(old(self).unit, t),
            *final(self) == state_after(*old(self), t, now, *settings),
            changed ==> final(self).backoff_secs == 0,
            !changed ==> final(self).backoff_secs == next_backoff(old(self).backoff_secs, *settings),
            final(self).backoff_secs <= settings.max_backoff_secs,
    {
        let position = merge_position(self.unit.position, t.position);
        let orientation = merge_orientation(self.unit.orientation, t.orientation);
        let velocity = merge_velocity(self.unit.velocity, t.velocity);
        let changed = position != self.unit.position || orientation != self.unit.orientation
            || velocity != self.unit.velocity;
        self.backoff_secs = if changed {
            0
        } else {
            backoff_after_unchanged(self.backoff_secs, settings)
        };
        self.unit.position = position;
        self.unit.orientation = orientation;
        self.unit.velocity = velocity;
        self.update_time_bits = t.time_bits;
        self.last_checked = now;
        if changed {
            self.last_changed = now;
        }
        changed
    }
}

/// The placement of a unit that DCS reports when it is checked.
#[derive(Clone, Copy, Debug)]
pub struct Transform {
    pub time_bits: u64,
    pub position: Option<Position>,
    pub orientation: Option<Orientation>,
    pub velocity: Option<Velocity>,
}

/// What one message of a units stream reports.
#[derive(Debug)]
pub enum UnitUpdate {
    /// The unit appeared or changed.
    Unit(Unit),
    /// The unit is gone.
    Gone { id: u32, name: String },
}

/// One message of a units stream.
#[derive(Debug)]
pub struct UnitsResponse {
    pub time_bits: u64,
    pub update: UnitUpdate,
}

/// A reported position replaces the known one where both are known and they differ.
pub open spec fn merged_position(known: Option<Position>, reported: Option<Position>) -> Option<
    Position,
> {
    match (known, reported) {
        (Some(b), Some(a)) => if positions_close(b, a) {
            known
        } else {
            reported
        },
        _ => known,
    }
}

/// A reported orientation replaces the known one where both are known and they differ.
pub open spec fn merged_orientation(
    known: Option<Orientation>,
    reported: Option<Orientation>,
) -> Option<Orientation> {
    match (known, reported) {
        (Some(b), Some(a)) => if orientations_close(b, a) {
            known
        } else {
            reported
        },
        _ => known,
    }
}

/// A reported velocity replaces the known one where both are known and they differ.
pub open spec fn merged_velocity(known: Option<Velocity>, reported: Option<Velocity>) -> Option<
    Velocity,
> {
    match (known, reported) {
        (Some(b), Some(a)) => if velocities_close(b, a) {
            known
        } else {
            reported
        },
        _ => known,
    }
}

/// Whether a report changes the unit: some part that both know differs.
pub open spec fn transform_changes(u: Unit, t: Transform) -> bool {
    merged_position(u.position, t.position) != u.position || merged_orientation(
        u.orientation,
        t.orientation,
    ) != u.orientation || merged_velocity(u.velocity, t.velocity) != u.velocity
}

/// The unit with the parts of a report that changed it.
pub open spec fn unit_after(u: Unit, t: Transform) -> Unit {
    Unit {
        position: merged_position(u.position, t.position),
        orientation: merged_orientation(u.orientation, t.orientation),
        velocity: merged_velocity(u.velocity, t.velocity),
        ..u
    }
}

/// The state of a unit after a report at the instant `now`: a change resets the wait, no
/// change lengthens it.
pub open spec fn state_after(
    s: UnitState,
    t: Transform,
    now: u128,
    settings: StreamSettings,
) -> UnitState {
    let changed = transform_changes(s.unit, t);
    UnitState {
        unit: unit_after(s.unit, t),
        backoff_secs: if changed {
            0
        } else {
            next_backoff(s.backoff_secs, settings)
        },
        update_time_bits: t.time_bits,
        last_checked: now,
        last_changed: if changed {
            now
        } else {
            s.last_changed
        },
        is_gone: s.is_gone,
    }
}

fn merge_position(known: Option<Position>, reported: Option<Position>) -> (r: Option<Position>)
    ensures
        r == merged_position(known, reported),
{
    match (known, reported) {
        (Some(b), Some(a)) => if position_equalish(&b, &a) {
            known
        } else {
            reported
        },
        _ => known,
    }
}

fn merge_orientation(known: Option<Orientation>, reported: Option<Orientation>) -> (r: Option<
    Orientation,
>)
    ensures
        r == merged_orientation(known, reported),
{
    match (known, reported) {
        (Some(b), Some(a)) => if orientation_equalish(&b, &a) {
            known
        } else {
            reported
        },
        _ => known,
    }
}

fn merge_velocity(known: Option<Velocity>, reported: Option<Velocity>) -> (r: Option<Velocity>)
    ensures
        r == merged_velocity(known, reported),
{
    match (known, reported) {
        (Some(b), Some(a)) => if velocity_equalish(&b, &a) {
            known
        } else {
            reported
        },
        _ => known,
    }
}

/// The names of the known units are pairwise different.
pub open spec fn names_unique(s: Seq<UnitState>) -> bool {
    forall|i: int, j: int|
        0 <= i < s.len() && 0 <= j < s.len() && i != j ==> #[trigger] s[i].unit.name@
            != #[trigger] s[j].unit.name@
}

/// Whether some known unit has the name `k`.
pub open spec fn has_name(s: Seq<UnitState>, k: Seq<char>) -> bool {
    exists|i: int| 0 <= i < s.len() && #[trigger] s[i].unit.name@ == k
}

/// The known units by name.
pub open spec fn states_map(s: Seq<UnitState>) -> Map<Seq<char>, UnitState> {
    Map::new(
        |k: Seq<char>| has_name(s, k),
        |k: Seq<char>| s[choose|i: int| 0 <= i < s.len() && #[trigger] s[i].unit.name@ == k],
    )
}

proof fn lemma_map_at(s: Seq<UnitState>, i: int)
    requires
        names_unique(s),
        0 <= i < s.len(),
    ensures
        states_map(s).dom().contains(s[i].unit.name@),
        states_map(s)[s[i].unit.name@] == s[i],
{
    let k = s[i].unit.name@;
    assert(has_name(s, k));
    let j = choose|j: int| 0 <= j < s.len() && #[trigger] s[j].unit.name@ == k;
    assert(s[j].unit.name@ == k);
    assert(j == i);
}

proof fn lemma_map_update(s: Seq<UnitState>, i: int, st: UnitState)
    requires
        names_unique(s),
        0 <= i < s.len(),
        st.unit.name@ == s[i].unit.name@,
    ensures
        names_unique(s.update(i, st)),
        states_map(s.update(i, st)) == states_map(s).insert(st.unit.name@, st),
{
    let t = s.update(i, st);
    assert(names_unique(t)) by {
        assert forall|a: int, b: int|
            0 <= a < t.len() && 0 <= b < t.len() && a != b implies #[trigger] t[a].unit.name@
            != #[trigger] t[b].unit.name@ by {
            assert(s[a].unit.name@ == t[a].unit.name@);
            assert(s[b].unit.name@ == t[b].unit.name@);
        }
    }
    let m = states_map(s).insert(st.unit.name@, st);
    assert forall|k: Seq<char>| #[trigger] states_map(t).dom().contains(k) <==> m.dom().contains(
        k,
    ) by {
        if has_name(t, k) {
            let a = choose|a: int| 0 <= a < t.len() && #[trigger] t[a].unit.name@ == k;
            assert(s[a].unit.name@ == k);
        }
        if has_name(s, k) {
            let a = choose|a: int| 0 <= a < s.len() && #[trigger] s[a].unit.name@ == k;
            assert(t[a].unit.name@ == k);
        }
        if k == st.unit.name@ {
            assert(t[i].unit.name@ == k);
        }
    }
    assert forall|k: Seq<char>| #[trigger] states_map(t).dom().contains(k) implies states_map(t)[k]
        == m[k] by {
        let a = choose|a: int| 0 <= a < t.len() && #[trigger] t[a].unit.name@ == k;
        lemma_map_at(t, a);
        if a != i {
            lemma_map_at(s, a);
        }
    }
    assert(states_map(t) =~= m);
}

proof fn lemma_map_push(s: Seq<UnitState>, st: UnitState)
    requires
        names_unique(s),
        !has_name(s, st.unit.name@),
    ensures
        names_unique(s.push(st)),
        states_map(s.push(st)) == states_map(s).insert(st.unit.name@, st),
{
    let t = s.push(st);
    assert(names_unique(t)) by {
        assert forall|a: int, b: int|
            0 <= a < t.len() && 0 <= b < t.len() && a != b implies #[trigger] t[a].unit.name@
            != #[trigger] t[b].unit.name@ by {
            if a < s.len() && b < s.len() {
                assert(s[a] == t[a]);
                assert(s[b] == t[b]);
            } else if a < s.len() {
                assert(s[a] == t[a]);
            } else {
                assert(s[b] == t[b]);
            }
        }
    }
    let m = states_map(s).insert(st.unit.name@, st);
    assert forall|k: Seq<char>| #[trigger] states_map(t).dom().contains(k) <==> m.dom().contains(
        k,
    ) by {
        if has_name(t, k) {
            let a = choose|a: int| 0 <= a < t.len() && #[trigger] t[a].unit.name@ == k;
            if a < s.len() {
                assert(s[a] == t[a]);
            }
        }
        if has_name(s, k) {
            let a = choose|a: int| 0 <= a < s.len() && #[trigger] s[a].unit.name@ == k;
            assert(t[a] == s[a]);
        }
        if k == st.unit.name@ {
            assert(t[s.len() as int] == st);
        }
    }
    assert forall|k: Seq<char>| #[trigger] states_map(t).dom().contains(k) implies states_map(t)[k]
        == m[k] by {
        let a = choose|a: int| 0 <= a < t.len() && #[trigger] t[a].unit.name@ == k;
        lemma_map_at(t, a);
        if a < s.len() {
            assert(t[a] == s[a]);
            lemma_map_at(s, a);
        }
    }
    assert(states_map(t) =~= m);
}

proof fn lemma_map_remove(s: Seq<UnitState>, i: int)
    requires
        names_unique(s),
        0 <= i < s.len(),
    ensures
        names_unique(s.remove(i)),
        states_map(s.remove(i)) == states_map(s).remove(s[i].unit.name@),
{
    let t = s.remove(i);
    let key = s[i].unit.name@;
    assert(names_unique(t)) by {
        assert forall|a: int, b: int|
            0 <= a < t.len() && 0 <= b < t.len() && a != b implies #[trigger] t[a].unit.name@
            != #[trigger] t[b].unit.name@ by {
            let sa = if a < i {
                a
            } else {
                a + 1
            };
            let sb = if b < i {
                b
            } else {
                b + 1
            };
            assert(t[a] == s[sa]);
            assert(t[b] == s[sb]);
        }
    }
    let m = states_map(s).remove(key);
    assert forall|k: Seq<char>| #[trigger] states_map(t).dom().contains(k) <==> m.dom().contains(
        k,
    ) by {
        if has_name(t, k) {
            let a = choose|a: int| 0 <= a < t.len() && #[trigger] t[a].unit.name@ == k;
            let sa = if a < i {
                a
            } else {
                a + 1
            };
            assert(t[a] == s[sa]);
            assert(s[sa].unit.name@ == k);
        }
        if has_name(s, k) && k != key {
            let a = choose|a: int| 0 <= a < s.len() && #[trigger] s[a].unit.name@ == k;
            assert(a != i);
            let ta = if a < i {
                a
            } else {
                a - 1
            };
            assert(t[ta] == s[a]);
        }
    }
    assert forall|k: Seq<char>| #[trigger] states_map(t).dom().contains(k) implies states_map(t)[k]
        == m[k] by {
        let a = choose|a: int| 0 <= a < t.len() && #[trigger] t[a].unit.name@ == k;
        lemma_map_at(t, a);
        let sa = if a < i {
            a
        } else {
            a + 1
        };
        assert(t[a] == s[sa]);
        lemma_map_at(s, sa);
    }
    assert(states_map(t) =~= m);
}

/// The units that a stream knows, each under its own name.
pub struct UnitRegistry {
    units: Vec<UnitState>,
}

/// The known units after a report was applied to the unit named `k`, at the instant
/// `now`: a report for a unit that is not due leaves everything as it is.
pub open spec fn registry_after_report(
    m: Map<Seq<char>, UnitState>,
    k: Seq<char>,
    report: Result<Transform, RpcStatus>,
    now: u128,
    settings: StreamSettings,
) -> Map<Seq<char>, UnitState> {
    if !m.dom().contains(k) || !due(m[k], now) {
        m
    } else {
        match report {
            Ok(t) => m.insert(k, state_after(m[k], t, now, settings)),
            Err(status) => if status.code == Code::NotFound {
                m.insert(k, UnitState { is_gone: true, ..m[k] })
            } else {
                m
            },
        }
    }
}

/// Whether a unit is due to be checked at the instant `now`.
pub open spec fn due(s: UnitState, now: u128) -> bool {
    now >= s.last_checked && now - s.last_checked >= s.backoff_secs * 1_000_000_000
}

/// The registry's invariant: unique names, and waits no longer than the longest wait.
pub open spec fn waits_bounded(m: Map<Seq<char>, UnitState>, settings: StreamSettings) -> bool {
    forall|k: Seq<char>| #[trigger] m.dom().contains(k) ==> m[k].backoff_secs
        <= settings.max_backoff_secs
}

impl View for UnitRegistry {
    type V = Map<Seq<char>, UnitState>;

    closed spec fn view(&self) -> Map<Seq<char>, UnitState> {
        states_map(self.units@)
    }
}

impl UnitRegistry {
    /// The registry's invariant.
    pub closed spec fn wf(&self) -> bool {
        names_unique(self.units@)
    }

    /// A registry that knows no unit.
    pub fn new() -> (r: UnitRegistry)
        ensures
            r.wf(),
            r@ == Map::<Seq<char>, UnitState>::empty(),
    {
        let r = UnitRegistry { units: Vec::new() };
        assert(r@ =~= Map::<Seq<char>, UnitState>::empty());
        r
    }

    /// The number of known units.
    pub fn len(&self) -> (r: usize)
        requires
            self.wf(),
        ensures
            r == self@.len(),
    {
        proof {
            self.lemma_len();
        }
        self.units.len()
    }

    proof fn lemma_len(&self)
        requires
            self.wf(),
        ensures
            self@.len() == self.units@.len(),
            self@.dom().finite(),
        decreases self.units@.len(),
    {
        let s = self.units@;
        let names = Seq::new(s.len(), |i: int| s[i].unit.name@);
        assert(self@.dom() =~= names.to_set()) by {
            assert forall|k: Seq<char>| self@.dom().contains(k) implies names.to_set().contains(
                k,
            ) by {
                let a = choose|a: int| 0 <= a < s.len() && #[trigger] s[a].unit.name@ == k;
                assert(names[a] == k);
            }
            assert forall|k: Seq<char>| names.to_set().contains(k) implies self@.dom().contains(
                k,
            ) by {
                let a = choose|a: int| 0 <= a < names.len() && names[a] == k;
                assert(s[a].unit.name@ == k);
            }
        }
        assert(names.no_duplicates()) by {
            assert forall|a: int, b: int|
                0 <= a < names.len() && 0 <= b < names.len() && a != b implies names[a]
                != names[b] by {
                assert(s[a].unit.name@ != s[b].unit.name@);
            }
        }
        names.unique_seq_to_set();
    }

    /// The position in the list of the unit named `name`, if it is known.
    fn find(&self, name: &String) -> (r: Option<usize>)
        requires
            self.wf(),
        ensures
            match r {
                Some(i) => i < self.units@.len() && self.units@[i as int].unit.name@ == name@,
                None => !has_name(self.units@, name@),
            },
    {
        let n = self.units.len();
        let mut i: usize = 0;
        while i < n
            invariant
                n == self.units@.len(),
                i <= n,
                forall|j: int| 0 <= j < i ==> #[trigger] self.units@[j].unit.name@ != name@,
            decreases n - i,
        {
            if self.units[i].unit.name == *name {
                return Some(i);
            }
            i = i + 1;
        }
        None
    }

    /// Whether a unit named `name` is known.
    pub fn contains(&self, name: &String) -> (r: bool)
        requires
            self.wf(),
        ensures
            r == self@.dom().contains(name@),
    {
        self.find(name).is_some()
    }

    /// Records `state` under its unit's name, in place of any state known by that name.
    pub fn insert(&mut self, state: UnitState)
        requires
            old(self).wf(),
        ensures
            final(self).wf(),
            final(self)@ == old(self)@.insert(state.unit.name@, state),
    {
        match self.find(&state.unit.name) {
            Some(i) => {
                proof {
                    lemma_map_update(self.units@, i as int, state);
                }
                self.units.set(i, state);
            },
            None => {
                proof {
                    lemma_map_push(self.units@, state);
                }
                self.units.push(state);
            },
        }
    }

    /// Forgets the unit named `name`, and gives back what was known of it.
    pub fn remove(&mut self, name: &String) -> (r: Option<UnitState>)
        requires
            old(self).wf(),
        ensures
            final(self).wf(),
            final(self)@ == old(self)@.remove(name@),
            r == (if old(self)@.dom().contains(name@) {
                Some(old(self)@[name@])
            } else {
                None
            }),
    {
        match self.find(name) {
            Some(i) => {
                proof {
                    lemma_map_at(self.units@, i as int);
                    lemma_map_remove(self.units@, i as int);
                }
                let st = self.units.remove(i);
                Some(st)
            },
            None => {
                assert(self@ =~= old(self)@.remove(name@));
                None
            },
        }
    }

    /// A registry of the units of the initial full sync: each unit under its name, a later
    /// unit in place of an earlier one of the same name.
    pub fn from_units(units: Vec<Unit>, now: u128) -> (r: UnitRegistry)
        ensures
            r.wf(),
            forall|k: Seq<char>| #[trigger]
                r@.dom().contains(k) <==> exists|i: int|
                    0 <= i < units@.len() && #[trigger] units@[i].name@ == k,
            forall|i: int|
                0 <= i < units@.len() && (forall|j: int|
                    i < j < units@.len() ==> #[trigger] units@[j].name@ != units@[i].name@)
                    ==> #[trigger] r@[units@[i].name@] == fresh_state(units@[i], now),
    {
        let mut r = UnitRegistry::new();
        let mut units = units;
        let ghost all = units@;
        let mut rest: Vec<Unit> = Vec::new();
        // take the units in order by reversing them onto a stack
        while units.len() > 0
            invariant
                rest@ + units@.reverse() =~= all.reverse(),
            decreases units.len(),
        {
            let u = units.pop().unwrap();
            proof {
                assert(units@.push(u).reverse() =~= seq![u] + units@.reverse());
            }
            rest.push(u);
        }
        assert(rest@ =~= all.reverse());
        let n = rest.len();
        let mut done: usize = 0;
        while rest.len() > 0
            invariant
                r.wf(),
                n == all.len(),
                done + rest@.len() == n,
                forall|j: int| 0 <= j < rest@.len() ==> rest@[j] == all[n - 1 - j],
                forall|k: Seq<char>| #[trigger]
                    r@.dom().contains(k) <==> exists|i: int|
                        0 <= i < done && #[trigger] all[i].name@ == k,
                forall|i: int|
                    0 <= i < done && (forall|j: int|
                        i < j < done ==> #[trigger] all[j].name@ != all[i].name@)
                        ==> #[trigger] r@[all[i].name@] == fresh_state(all[i], now),
            decreases rest.len(),
        {
            let ghost before = r@;
            let u = rest.pop().unwrap();
            assert(u == all[done as int]);
            r.insert(UnitState::new(u, now));
            proof {
                assert forall|k: Seq<char>| #[trigger]
                    r@.dom().contains(k) <==> exists|i: int|
                        0 <= i < done + 1 && #[trigger] all[i].name@ == k by {
                    if k == u.name@ {
                        assert(all[done as int].name@ == k);
                    } else if before.dom().contains(k) {
                        let i = choose|i: int| 0 <= i < done && #[trigger] all[i].name@ == k;
                        assert(all[i].name@ == k);
                    } else if exists|i: int| 0 <= i < done + 1 && #[trigger] all[i].name@ == k {
                        let i = choose|i: int| 0 <= i < done + 1 && #[trigger] all[i].name@ == k;
                        assert(i < done);
                        assert(all[i].name@ == k);
                    }
                }
                assert forall|i: int|
                    0 <= i < done + 1 && (forall|j: int|
                        i < j < done + 1 ==> #[trigger] all[j].name@ != all[i].name@)
                        implies #[trigger] r@[all[i].name@] == fresh_state(all[i], now) by {
                    if i < done {
                        assert(all[done as int].name@ != all[i].name@);
                    }
                }
            }
            done = done + 1;
        }
        r
    }
}

/// An event of the mission, as far as a units stream cares about it.
#[derive(Debug)]
pub enum UnitEvent {
    /// Something was born; `initiator` is the unit, if it was one.
    Birth { initiator: Option<Unit> },
    /// Something died; `initiator_name` is the name of the unit, if it was one.
    Dead { initiator_name: Option<String> },
    /// Any other event.
    Other,
}

/// Whether a message reports the unit known by the name `k`, with the time of its last
/// update.
pub open spec fn reports_unit(resp: UnitsResponse, m: Map<Seq<char>, UnitState>, k: Seq<char>) -> bool {
    &&& m.dom().contains(k)
    &&& resp.time_bits == m[k].update_time_bits
    &&& resp.update == UnitUpdate::Unit(m[k].unit)
}

/// The name of the unit that a message is about.
pub open spec fn reported_name(resp: UnitsResponse) -> Seq<char> {
    match resp.update {
        UnitUpdate::Unit(u) => u.name@,
        UnitUpdate::Gone { name, .. } => name@,
    }
}

/// Whether a message reports one of the known units.
pub open spec fn reports_some_unit(resp: UnitsResponse, m: Map<Seq<char>, UnitState>) -> bool {
    exists|k: Seq<char>| reports_unit(resp, m, k)
}

/// The known units without those found to be gone.
pub open spec fn without_gone(m: Map<Seq<char>, UnitState>) -> Map<Seq<char>, UnitState> {
    Map::new(|k: Seq<char>| m.dom().contains(k) && !m[k].is_gone, |k: Seq<char>| m[k])
}

/// The names of the due units, in the order of the list.
pub open spec fn due_names_seq(s: Seq<UnitState>, now: u128) -> Seq<Seq<char>>
    decreases s.len(),
{
    if s.len() == 0 {
        Seq::empty()
    } else {
        let rest = due_names_seq(s.drop_last(), now);
        if due(s.last(), now) {
            rest.push(s.last().unit.name@)
        } else {
            rest
        }
    }
}

proof fn lemma_due_names_distinct(s: Seq<UnitState>, now: u128)
    requires
        names_unique(s),
    ensures
        forall|a: int, b: int|
            0 <= a < b < due_names_seq(s, now).len() ==> #[trigger] due_names_seq(s, now)[a]
                != #[trigger] due_names_seq(s, now)[b],
    decreases s.len(),
{
    if s.len() > 0 {
        let p = s.drop_last();
        assert(names_unique(p)) by {
            assert forall|i: int, j: int|
                0 <= i < p.len() && 0 <= j < p.len() && i != j implies #[trigger] p[i].unit.name@
                    != #[trigger] p[j].unit.name@ by {
                assert(p[i] == s[i] && p[j] == s[j]);
            }
        }
        lemma_due_names_distinct(p, now);
        let k = s.last().unit.name@;
        lemma_due_names_seq(p, now, k);
        if due_names_seq(p, now).contains(k) {
            let i = choose|i: int| 0 <= i < p.len() && #[trigger] p[i].unit.name@ == k && due(
                p[i],
                now,
            );
            assert(s[i].unit.name@ == s[s.len() - 1].unit.name@);
        }
        let q = due_names_seq(s, now);
        let r = due_names_seq(p, now);
        if due(s.last(), now) {
            assert forall|a: int, b: int| 0 <= a < b < q.len() implies #[trigger] q[a]
                != #[trigger] q[b] by {
                if b == q.len() - 1 {
                    assert(q[b] == k);
                    assert(q[a] == r[a]);
                    if q[a] == k {
                        assert(r.contains(k));
                    }
                } else {
                    assert(q[a] == r[a] && q[b] == r[b]);
                }
            }
        }
    }
}

proof fn lemma_due_names_seq(s: Seq<UnitState>, now: u128, k: Seq<char>)
    ensures
        due_names_seq(s, now).contains(k) <==> exists|i: int|
            0 <= i < s.len() && #[trigger] s[i].unit.name@ == k && due(s[i], now),
    decreases s.len(),
{
    if s.len() > 0 {
        let p = s.drop_last();
        lemma_due_names_seq(p, now, k);
        if due_names_seq(s, now).contains(k) {
            if due_names_seq(p, now).contains(k) {
                let i = choose|i: int| 0 <= i < p.len() && #[trigger] p[i].unit.name@ == k && due(
                    p[i],
                    now,
                );
                assert(s[i] == p[i]);
            } else {
                assert(s[s.len() - 1].unit.name@ == k);
            }
        }
        if exists|i: int| 0 <= i < s.len() && #[trigger] s[i].unit.name@ == k && due(s[i], now) {
            let i = choose|i: int| 0 <= i < s.len() && #[trigger] s[i].unit.name@ == k && due(
                s[i],
                now,
            );
            if i < s.len() - 1 {
                assert(p[i] == s[i]);
                let q = due_names_seq(p, now);
                let a = choose|a: int| 0 <= a < q.len() && q[a] == k;
                if due(s.last(), now) {
                    assert(q.push(s.last().unit.name@)[a] == k);
                }
            } else {
                let q = due_names_seq(p, now);
                assert(q.push(s.last().unit.name@)[q.len() as int] == k);
            }
        }
    }
}

impl UnitRegistry {
    /// Updates the known units after an event: a unit that is born in a watched category is
    /// reported and checked from now on; a unit that dies is forgotten and reported gone,
    /// if it was known. Gives the message to send, if any.
    pub fn handle_event(
        &mut self,
        time_bits: u64,
        event: UnitEvent,
        settings: &StreamSettings,
        now: u128,
    ) -> (r: Option<UnitsResponse>)
        requires
            old(self).wf(),
        ensures
            final(self).wf(),
            match event {
                UnitEvent::Birth { initiator: Some(u) } => if category_watched(
                    settings.category,
                    unit_category(u),
                ) {
                    &&& final(self)@ == old(self)@.insert(u.name@, fresh_state(u, now))
                    &&& r matches Some(resp) && resp.time_bits == time_bits && resp.update
                        == UnitUpdate::Unit(u)
                } else {
                    final(self)@ == old(self)@ && r is None
                },
                UnitEvent::Dead { initiator_name: Some(n) } => {
                    &&& final(self)@ == old(self)@.remove(n@)
                    &&& if old(self)@.dom().contains(n@) {
                        r matches Some(resp) && resp.time_bits == time_bits && resp.update
                            == (UnitUpdate::Gone {
                            id: old(self)@[n@].unit.id,
                            name: old(self)@[n@].unit.name,
                        })
                    } else {
                        r is None
                    }
                },
                _ => final(self)@ == old(self)@ && r is None,
            },
    {
        match event {
            UnitEvent::Birth { initiator: Some(unit) } => {
                let category = match &unit.group {
                    Some(g) => group_category(g.category),
                    None => 0,
                };
                if settings.category == category || settings.category == 0 {
                    let response = UnitsResponse {
                        time_bits,
                        update: UnitUpdate::Unit(unit.duplicate()),
                    };
                    self.insert(UnitState::new(unit, now));
                    Some(response)
                } else {
                    None
                }
            },
            UnitEvent::Dead { initiator_name: Some(name) } => {
                match self.remove(&name) {
                    Some(state) => Some(
                        UnitsResponse {
                            time_bits,
                            update: UnitUpdate::Gone { id: state.unit.id, name: state.unit.name },
                        },
                    ),
                    None => None,
                }
            },
            _ => None,
        }
    }

    /// The names of the units due to be checked at the instant `now`.
    pub fn due_names(&self, now: u128) -> (r: Vec<String>)
        requires
            self.wf(),
        ensures
            forall|a: int, b: int| 0 <= a < b < r@.len() ==> #[trigger] r@[a]@ != #[trigger] r@[b]@,
            forall|k: Seq<char>|
                (exists|i: int| 0 <= i < r@.len() && #[trigger] r@[i]@ == k) <==> (
                #[trigger] self@.dom().contains(k) && due(self@[k], now)),
    {
        let n = self.units.len();
        let mut out: Vec<String> = Vec::new();
        let mut i: usize = 0;
        while i < n
            invariant
                n == self.units@.len(),
                i <= n,
                out@.len() == due_names_seq(self.units@.take(i as int), now).len(),
                forall|a: int|
                    0 <= a < out@.len() ==> #[trigger] out@[a]@ == due_names_seq(
                        self.units@.take(i as int),
                        now,
                    )[a],
            decreases n - i,
        {
            let ghost before = self.units@.take(i as int);
            assert(self.units@.take(i + 1).drop_last() =~= before);
            if self.units[i].should_update(now) {
                out.push(self.units[i].unit.name.clone());
            }
            i = i + 1;
        }
        assert(self.units@.take(n as int) =~= self.units@);
        proof {
            let s = self.units@;
            lemma_due_names_distinct(s, now);
            assert forall|a: int, b: int| 0 <= a < b < out@.len() implies #[trigger] out@[a]@
                != #[trigger] out@[b]@ by {
                assert(out@[a]@ == due_names_seq(s, now)[a]);
                assert(out@[b]@ == due_names_seq(s, now)[b]);
            }
            assert forall|k: Seq<char>|
                (exists|i: int| 0 <= i < out@.len() && #[trigger] out@[i]@ == k) <==> (
                #[trigger] self@.dom().contains(k) && due(self@[k], now)) by {
                lemma_due_names_seq(s, now, k);
                let q = due_names_seq(s, now);
                if exists|i: int| 0 <= i < out@.len() && #[trigger] out@[i]@ == k {
                    let a = choose|a: int| 0 <= a < out@.len() && #[trigger] out@[a]@ == k;
                    assert(q[a] == k);
                    assert(q.contains(k));
                    let j = choose|j: int| 0 <= j < s.len() && #[trigger] s[j].unit.name@ == k
                        && due(s[j], now);
                    lemma_map_at(s, j);
                }
                if self@.dom().contains(k) && due(self@[k], now) {
                    let j = choose|j: int| 0 <= j < s.len() && #[trigger] s[j].unit.name@ == k;
                    lemma_map_at(s, j);
                    assert(q.contains(k));
                    let a = choose|a: int| 0 <= a < q.len() && q[a] == k;
                    assert(out@[a]@ == k);
                }
            }
        }
        out
    }

    /// Applies the report of a check of the unit named `name` at the instant `now`.
    ///
    /// A unit that is not known or not due is left alone. A placement that differs from the
    /// known one (beyond the tolerances) is taken over and reported, and resets the unit's
    /// wait; one that does not lengthens the wait. A unit that DCS does not find is flagged
    /// gone and reported gone; any other failure of the check is handed back.
    pub fn apply_report(
        &mut self,
        name: &String,
        report: Result<Transform, RpcStatus>,
        now: u128,
        settings: &StreamSettings,
    ) -> (r: Result<Option<UnitsResponse>, RpcStatus>)
        requires
            old(self).wf(),
            settings.wf(),
            waits_bounded(old(self)@, *settings),
        ensures
            final(self).wf(),
            waits_bounded(final(self)@, *settings),
            final(self)@ == registry_after_report(old(self)@, name@, report, now, *settings),
            !old(self)@.dom().contains(name@) || !due(old(self)@[name@], now) ==> r matches Ok(
                None,
            ),
            old(self)@.dom().contains(name@) && due(old(self)@[name@], now) ==> match report {
                Ok(t) => if transform_changes(old(self)@[name@].unit, t) {
                    r matches Ok(Some(resp)) && resp.time_bits == t.time_bits && resp.update
                        == UnitUpdate::Unit(unit_after(old(self)@[name@].unit, t))
                } else {
                    r matches Ok(None)
                },
                Err(status) => if status.code == Code::NotFound {
                    r matches Ok(Some(resp)) && resp.time_bits == old(self)@[name@].update_time_bits
                        && resp.update == (UnitUpdate::Gone {
                        id: old(self)@[name@].unit.id,
                        name: old(self)@[name@].unit.name,
                    })
                } else {
                    r == Err::<Option<UnitsResponse>, RpcStatus>(status)
                },
            },
    {
        let i = match self.find(name) {
            Some(i) => i,
            None => return Ok(None),
        };
        proof {
            lemma_map_at(self.units@, i as int);
        }
        if !self.units[i].should_update(now) {
            return Ok(None);
        }
        let old_state = &self.units[i];
        match report {
            Ok(t) => {
                let mut st = UnitState {
                    unit: old_state.unit.duplicate(),
                    backoff_secs: old_state.backoff_secs,
                    update_time_bits: old_state.update_time_bits,
                    last_checked: old_state.last_checked,
                    last_changed: old_state.last_changed,
                    is_gone: old_state.is_gone,
                };
                let changed = st.update(t, now, settings);
                let response = if changed {
                    Some(UnitsResponse { time_bits: t.time_bits, update: UnitUpdate::Unit(st.unit.duplicate()) })
                } else {
                    None
                };
                proof {
                    lemma_map_update(self.units@, i as int, st);
                }
                self.units.set(i, st);
                Ok(response)
            },
            Err(status) => {
                if status.code == Code::NotFound {
                    let response = UnitsResponse {
                        time_bits: old_state.update_time_bits,
                        update: UnitUpdate::Gone {
                            id: old_state.unit.id,
                            name: old_state.unit.name.clone(),
                        },
                    };
                    let new_state = UnitState {
                        unit: old_state.unit.duplicate(),
                        backoff_secs: old_state.backoff_secs,
                        update_time_bits: old_state.update_time_bits,
                        last_checked: old_state.last_checked,
                        last_changed: old_state.last_changed,
                        is_gone: true,
                    };
                    proof {
                        lemma_map_update(self.units@, i as int, new_state);
                    }
                    self.units.set(i, new_state);
                    Ok(Some(response))
                } else {
                    Err(status)
                }
            },
        }
    }

    /// Forgets the units that were found to be gone.
    pub fn remove_gone(&mut self)
        requires
            old(self).wf(),
        ensures
            final(self).wf(),
            final(self)@ == without_gone(old(self)@),
    {
        let ghost target = without_gone(old(self)@);
        let mut i: usize = 0;
        while i < self.units.len()
            invariant
                self.wf(),
                target == without_gone(old(self)@),
                i <= self.units@.len(),
                forall|j: int| 0 <= j < i ==> !(#[trigger] self.units@[j]).is_gone,
                forall|k: Seq<char>| #[trigger]
                    self@.dom().contains(k) ==> old(self)@.dom().contains(k) && self@[k]
                        == old(self)@[k],
                forall|k: Seq<char>| #[trigger]
                    target.dom().contains(k) ==> self@.dom().contains(k),
            decreases self.units@.len() - i,
        {
            if self.units[i].is_gone {
                let ghost prev = self@;
                let ghost ki = self.units@[i as int].unit.name@;
                proof {
                    lemma_map_at(self.units@, i as int);
                    lemma_map_remove(self.units@, i as int);
                }
                let _ = self.units.remove(i);
                proof {
                    assert(prev[ki].is_gone);
                    assert forall|k: Seq<char>| #[trigger] self@.dom().contains(k) implies old(
                        self,
                    )@.dom().contains(k) && self@[k] == old(self)@[k] by {
                        assert(prev.dom().contains(k));
                    }
                    assert(self@ == prev.remove(ki));
                    assert forall|k: Seq<char>| #[trigger] target.dom().contains(k) implies self@.dom().contains(k) by {
                        assert(old(self)@.dom().contains(k) && !old(self)@[k].is_gone);
                        assert(prev.dom().contains(k));
                        if k == ki {
                            assert(prev[ki] == old(self)@[ki]);
                            assert(false);
                        }
                    }
                }
            } else {
                i = i + 1;
            }
        }
        proof {
            let s = self.units@;
            assert forall|k: Seq<char>| #[trigger] self@.dom().contains(k) implies target.dom().contains(k) by {
                let j = choose|j: int| 0 <= j < s.len() && #[trigger] s[j].unit.name@ == k;
                lemma_map_at(s, j);
            }
            assert(self@ =~= target);
        }
    }

    /// The messages of the initial full sync: every known unit, with the time of its last
    /// update, once each, and nothing else.
    pub fn snapshot(&self) -> (r: Vec<UnitsResponse>)
        requires
            self.wf(),
        ensures
            r@.len() == self@.dom().len(),
            forall|i: int, j: int|
                0 <= i < j < r@.len() ==> reported_name(#[trigger] r@[i]) != reported_name(
                    #[trigger] r@[j],
                ),
            forall|k: Seq<char>| #[trigger]
                self@.dom().contains(k) ==> exists|i: int|
                    0 <= i < r@.len() && reports_unit(#[trigger] r@[i], self@, k),
            forall|i: int| 0 <= i < r@.len() ==> reports_some_unit(#[trigger] r@[i], self@),
    {
        let n = self.units.len();
        let mut out: Vec<UnitsResponse> = Vec::new();
        let mut i: usize = 0;
        while i < n
            invariant
                n == self.units@.len(),
                i <= n,
                out@.len() == i,
                forall|j: int|
                    0 <= j < i ==> (#[trigger] out@[j]).time_bits == self.units@[j].update_time_bits
                        && out@[j].update == UnitUpdate::Unit(self.units@[j].unit),
            decreases n - i,
        {
            let st = &self.units[i];
            out.push(
                UnitsResponse {
                    time_bits: st.update_time_bits,
                    update: UnitUpdate::Unit(st.unit.duplicate()),
                },
            );
            i = i + 1;
        }
        proof {
            let s = self.units@;
            self.lemma_len();
            assert forall|i: int, j: int| 0 <= i < j < out@.len() implies reported_name(
                #[trigger] out@[i],
            ) != reported_name(#[trigger] out@[j]) by {
                assert(reported_name(out@[i]) == s[i].unit.name@);
                assert(reported_name(out@[j]) == s[j].unit.name@);
            }
            assert forall|k: Seq<char>| #[trigger] self@.dom().contains(k) implies exists|i: int|
                0 <= i < out@.len() && reports_unit(#[trigger] out@[i], self@, k) by {
                let j = choose|j: int| 0 <= j < s.len() && #[trigger] s[j].unit.name@ == k;
                lemma_map_at(s, j);
                assert(reports_unit(out@[j], self@, k));
            }
            assert forall|i: int| 0 <= i < out@.len() implies reports_some_unit(
                #[trigger] out@[i],
                self@,
            ) by {
                lemma_map_at(s, i);
                assert(reports_unit(out@[i], self@, s[i].unit.name@));
            }
        }
        out
    }
}

/// The wait between checks of a unit stays within the longest wait, and grows while the
/// unit does not change: it starts at the poll rate and at least doubles until it reaches
/// the longest wait.
pub proof fn lemma_backoff_bounded(current: u64, settings: StreamSettings)
    requires
        settings.wf(),
        current <= settings.max_backoff_secs,
    ensures
        next_backoff(current, settings) <= settings.max_backoff_secs,
        current == 0 ==> next_backoff(current, settings) == settings.poll_rate_secs,
        current != 0 ==> next_backoff(current, settings) == if 2 * current
            <= settings.max_backoff_secs {
            2 * current
        } else {
            settings.max_backoff_secs as int
        },
{
}

/// A unit that is born and then dies is no longer known, and what was known of the other
/// units is as before.
pub proof fn lemma_birth_then_death(m: Map<Seq<char>, UnitState>, u: Unit, now: u128)
    ensures
        m.insert(u.name@, fresh_state(u, now)).remove(u.name@) == m.remove(u.name@),
        !m.insert(u.name@, fresh_state(u, now)).remove(u.name@).dom().contains(u.name@),
{
    assert(m.insert(u.name@, fresh_state(u, now)).remove(u.name@) =~= m.remove(u.name@));
}

/// A stream that watches no particular category reports units of every category.
pub proof fn lemma_unspecified_watches_all(category: i32)
    ensures
        category_watched(0, category),
{
}

/// A check that finds a unit's latitude or longitude moved by 10^-6 degrees or more, or its
/// altitude or map offset by a millimeter or more, reports the unit as changed and takes
/// over the reported position; one that finds all of them within those tolerances keeps
/// the known position.
pub proof fn lemma_moved_position_is_a_change(u: Unit, t: Transform)
    requires
        u.position is Some,
        t.position is Some,
    ensures
        ({
            let p = u.position.unwrap();
            let q = t.position.unwrap();
            let within_tolerances = -1_000 < p.lat - q.lat < 1_000 && -1_000 < p.lon - q.lon
                < 1_000 && -1_000_000 < p.alt - q.alt < 1_000_000 && -1_000_000 < p.u - q.u
                < 1_000_000 && -1_000_000 < p.v - q.v < 1_000_000;
            &&& !within_tolerances ==> transform_changes(u, t) && unit_after(u, t).position
                == t.position
            &&& within_tolerances ==> unit_after(u, t).position == u.position
        }),
{
    crate::geometry::lemma_position_tolerances(u.position.unwrap(), t.position.unwrap());
}

} // verus!
