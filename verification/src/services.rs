//! Which of the DCS services a gRPC request goes to, by the path of its URI.
use vstd::prelude::*;

verus! {

/// The gRPC services that the server offers.
#[derive(Clone, Copy, Debug, PartialEq, Eq, Structural)]
pub enum DcsService {
    Atmosphere,
    Coalition,
    Controller,
    Custom,
    Group,
    Hook,
    Mission,
    Net,
    Timer,
    Trigger,
    Unit,
    World,
}

/// The full name of a service, which its methods' paths start with.
pub open spec fn service_name(s: DcsService) -> Seq<char> {
    match s {
        DcsService::Atmosphere => "dcs.atmosphere.v0.AtmosphereService"@,
        DcsService::Coalition => "dcs.coalition.v0.CoalitionService"@,
        DcsService::Controller => "dcs.controller.v0.ControllerService"@,
        DcsService::Custom => "dcs.custom.v0.CustomService"@,
        DcsService::Group => "dcs.group.v0.GroupService"@,
        DcsService::Hook => "dcs.hook.v0.HookService"@,
        DcsService::Mission => "dcs.mission.v0.MissionService"@,
        DcsService::Net => "dcs.net.v0.NetService"@,
        DcsService::Timer => "dcs.timer.v0.TimerService"@,
        DcsService::Trigger => "dcs.trigger.v0.TriggerService"@,
        DcsService::Unit => "dcs.unit.v0.UnitService"@,
        DcsService::World => "dcs.world.v0.WorldService"@,
    }
}

/// The services in the order in which a path is tried against them.
pub open spec fn service_order() -> Seq<DcsService> {
    seq![
        DcsService::Atmosphere,
        DcsService::Coalition,
        DcsService::Controller,
        DcsService::Custom,
        DcsService::Group,
        DcsService::Hook,
        DcsService::Mission,
        DcsService::Net,
        DcsService::Timer,
        DcsService::Trigger,
        DcsService::Unit,
        DcsService::World,
    ]
}

/// Whether `p` is a prefix of `s`.
pub open spec fn is_prefix(p: Seq<char>, s: Seq<char>) -> bool {
    p.len() <= s.len() && s.subrange(0, p.len() as int) == p
}

/// The path without its leading slashes.
pub open spec fn trim_slashes(path: Seq<char>) -> Seq<char>
    decreases path.len(),
{
    if path.len() > 0 && path[0] == '/' {
        trim_slashes(path.subrange(1, path.len() as int))
    } else {
        path
    }
}

/// The first service, from the `i`-th on, whose name starts the path.
pub open spec fn first_service_from(path: Seq<char>, i: nat) -> Option<DcsService>
    decreases 12 - i,
{
    if i >= 12 {
        None
    } else if is_prefix(service_name(service_order()[i as int]), path) {
        Some(service_order()[i as int])
    } else {
        first_service_from(path, i + 1)
    }
}

/// The service that serves the path: the first whose name starts the path without its
/// leading slashes.
pub open spec fn route_of(path: Seq<char>) -> Option<DcsService> {
    first_service_from(trim_slashes(path), 0)
}

fn starts_with(s: &str, p: &str) -> (r: bool)
    ensures
        r == is_prefix(p@, s@),
{
    let n = s.unicode_len();
    let m = p.unicode_len();
    if m > n {
        return false;
    }
    let mut i: usize = 0;
    while i < m
        invariant
            m == p@.len(),
            n == s@.len(),
            m <= n,
            i <= m,
            forall|j: int| 0 <= j < i ==> s@[j] == p@[j],
        decreases m - i,
    {
        if s.get_char(i) != p.get_char(i) {
            assert(s@.subrange(0, m as int)[i as int] != p@[i as int]);
            return false;
        }
        i = i + 1;
    }
    assert(s@.subrange(0, m as int) =~= p@);
    true
}

fn name_of(s: DcsService) -> (r: &'static str)
    ensures
        r@ == service_name(s),
{
    match s {
        DcsService::Atmosphere => "dcs.atmosphere.v0.AtmosphereService",
        DcsService::Coalition => "dcs.coalition.v0.CoalitionService",
        DcsService::Controller => "dcs.controller.v0.ControllerService",
        DcsService::Custom => "dcs.custom.v0.CustomService",
        DcsService::Group => "dcs.group.v0.GroupService",
        DcsService::Hook => "dcs.hook.v0.HookService",
        DcsService::Mission => "dcs.mission.v0.MissionService",
        DcsService::Net => "dcs.net.v0.NetService",
        DcsService::Timer => "dcs.timer.v0.TimerService",
        DcsService::Trigger => "dcs.trigger.v0.TriggerService",
        DcsService::Unit => "dcs.unit.v0.UnitService",
        DcsService::World => "dcs.world.v0.WorldService",
    }
}

fn service_at(i: usize) -> (r: DcsService)
    requires
        i < 12,
    ensures
        r == service_order()[i as int],
{
    if i == 0 {
        DcsService::Atmosphere
    } else if i == 1 {
        DcsService::Coalition
    } else if i == 2 {
        DcsService::Controller
    } else if i == 3 {
        DcsService::Custom
    } else if i == 4 {
        DcsService::Group
    } else if i == 5 {
        DcsService::Hook
    } else if i == 6 {
        DcsService::Mission
    } else if i == 7 {
        DcsService::Net
    } else if i == 8 {
        DcsService::Timer
    } else if i == 9 {
        DcsService::Trigger
    } else if i == 10 {
        DcsService::Unit
    } else {
        DcsService::World
    }
}

/// The service that serves a request for the URI path `path`; `None` when no service
/// does, which the server answers with the gRPC status 12 (unimplemented).
pub fn route(path: &str) -> (r: Option<DcsService>)
    ensures
        r == route_of(path@),
{
    let n = path.unicode_len();
    let mut k: usize = 0;
    assert(path@.subrange(0, n as int) =~= path@);
    while k < n && path.get_char(k) == '/'
        invariant
            n == path@.len(),
            k <= n,
            trim_slashes(path@) == trim_slashes(path@.subrange(k as int, n as int)),
        decreases n - k,
    {
        proof {
            let rest = path@.subrange(k as int, n as int);
            assert(rest.subrange(1, rest.len() as int) =~= path@.subrange(k + 1, n as int));
        }
        k = k + 1;
    }
    let trimmed = path.substring_char(k, n);
    proof {
        assert(path@.subrange(0, n as int) =~= path@);
        let rest = path@.subrange(k as int, n as int);
        assert(trim_slashes(rest) == rest);
    }
    let mut i: usize = 0;
    while i < 12
        invariant
            i <= 12,
            trimmed@ == trim_slashes(path@),
            first_service_from(trimmed@, 0) == first_service_from(trimmed@, i as nat),
        decreases 12 - i,
    {
        let s = service_at(i);
        if starts_with(trimmed, name_of(s)) {
            return Some(s);
        }
        i = i + 1;
    }
    None
}


proof fn lemma_not_prefix_at(p: Seq<char>, s: Seq<char>, k: int)
    requires
        0 <= k < p.len(),
        k < s.len(),
        p[k] != s[k],
    ensures
        !is_prefix(p, s),
{
    if is_prefix(p, s) {
        assert(s.subrange(0, p.len() as int)[k] == s[k]);
    }
}

proof fn lemma_first_service_at(path: Seq<char>, i: int, j: int)
    requires
        0 <= j <= i < 12,
        forall|t: int| j <= t < i ==> !is_prefix(#[trigger] service_name(service_order()[t]), path),
        is_prefix(service_name(service_order()[i]), path),
    ensures
        first_service_from(path, j as nat) == Some(service_order()[i]),
    decreases i - j,
{
    if j < i {
        lemma_first_service_at(path, i, j + 1);
    }
}

proof fn lemma_trim_one_slash(path: Seq<char>)
    requires
        path.len() > 1,
        path[0] == '/',
        path[1] != '/',
    ensures
        trim_slashes(path) == path.subrange(1, path.len() as int),
{
    let t = path.subrange(1, path.len() as int);
    assert(t[0] == path[1]);
    assert(trim_slashes(t) == t);
}

proof fn lemma_route_atmosphere(m: Seq<char>)
    ensures
        route_of("/dcs.atmosphere.v0.AtmosphereService/"@ + m) == Some(DcsService::Atmosphere),
{
    reveal_strlit("/dcs.atmosphere.v0.AtmosphereService/");
    reveal_strlit("dcs.atmosphere.v0.AtmosphereService");
    let path = "/dcs.atmosphere.v0.AtmosphereService/"@ + m;
    assert(path[0] == '/' && path[1] == 'd');
    lemma_trim_one_slash(path);
    let t = path.subrange(1, path.len() as int);
    assert(t.subrange(0, 35) =~= service_name(service_order()[0]));
    lemma_first_service_at(t, 0, 0);
}

proof fn lemma_route_coalition(m: Seq<char>)
    ensures
        route_of("/dcs.coalition.v0.CoalitionService/"@ + m) == Some(DcsService::Coalition),
{
    reveal_strlit("/dcs.coalition.v0.CoalitionService/");
    reveal_strlit("dcs.coalition.v0.CoalitionService");
    let path = "/dcs.coalition.v0.CoalitionService/"@ + m;
    assert(path[0] == '/' && path[1] == 'd');
    lemma_trim_one_slash(path);
    let t = path.subrange(1, path.len() as int);
    reveal_strlit("dcs.atmosphere.v0.AtmosphereService");
    assert(t[4] == path[5]);
    assert(service_name(service_order()[0])[4] != t[4]);
    lemma_not_prefix_at(service_name(service_order()[0]), t, 4);
    assert(t.subrange(0, 33) =~= service_name(service_order()[1]));
    lemma_first_service_at(t, 1, 0);
}

proof fn lemma_route_controller(m: Seq<char>)
    ensures
        route_of("/dcs.controller.v0.ControllerService/"@ + m) == Some(DcsService::Controller),
{
    reveal_strlit("/dcs.controller.v0.ControllerService/");
    reveal_strlit("dcs.controller.v0.ControllerService");
    let path = "/dcs.controller.v0.ControllerService/"@ + m;
    assert(path[0] == '/' && path[1] == 'd');
    lemma_trim_one_slash(path);
    let t = path.subrange(1, path.len() as int);
    reveal_strlit("dcs.atmosphere.v0.AtmosphereService");
    assert(t[4] == path[5]);
    assert(service_name(service_order()[0])[4] != t[4]);
    lemma_not_prefix_at(service_name(service_order()[0]), t, 4);
    reveal_strlit("dcs.coalition.v0.CoalitionService");
    assert(t[6] == path[7]);
    assert(service_name(service_order()[1])[6] != t[6]);
    lemma_not_prefix_at(service_name(service_order()[1]), t, 6);
    assert(t.subrange(0, 35) =~= service_name(service_order()[2]));
    lemma_first_service_at(t, 2, 0);
}

proof fn lemma_route_custom(m: Seq<char>)
    ensures
        route_of("/dcs.custom.v0.CustomService/"@ + m) == Some(DcsService::Custom),
{
    reveal_strlit("/dcs.custom.v0.CustomService/");
    reveal_strlit("dcs.custom.v0.CustomService");
    let path = "/dcs.custom.v0.CustomService/"@ + m;
    assert(path[0] == '/' && path[1] == 'd');
    lemma_trim_one_slash(path);
    let t = path.subrange(1, path.len() as int);
    reveal_strlit("dcs.atmosphere.v0.AtmosphereService");
    assert(t[4] == path[5]);
    assert(service_name(service_order()[0])[4] != t[4]);
    lemma_not_prefix_at(service_name(service_order()[0]), t, 4);
    reveal_strlit("dcs.coalition.v0.CoalitionService");
    assert(t[5] == path[6]);
    assert(service_name(service_order()[1])[5] != t[5]);
    lemma_not_prefix_at(service_name(service_order()[1]), t, 5);
    reveal_strlit("dcs.controller.v0.ControllerService");
    assert(t[5] == path[6]);
    assert(service_name(service_order()[2])[5] != t[5]);
    lemma_not_prefix_at(service_name(service_order()[2]), t, 5);
    assert(t.subrange(0, 27) =~= service_name(service_order()[3]));
    lemma_first_service_at(t, 3, 0);
}

proof fn lemma_route_group(m: Seq<char>)
    ensures
        route_of("/dcs.group.v0.GroupService/"@ + m) == Some(DcsService::Group),
{
    reveal_strlit("/dcs.group.v0.GroupService/");
    reveal_strlit("dcs.group.v0.GroupService");
    let path = "/dcs.group.v0.GroupService/"@ + m;
    assert(path[0] == '/' && path[1] == 'd');
    lemma_trim_one_slash(path);
    let t = path.subrange(1, path.len() as int);
    reveal_strlit("dcs.atmosphere.v0.AtmosphereService");
    assert(t[4] == path[5]);
    assert(service_name(service_order()[0])[4] != t[4]);
    lemma_not_prefix_at(service_name(service_order()[0]), t, 4);
    reveal_strlit("dcs.coalition.v0.CoalitionService");
    assert(t[4] == path[5]);
    assert(service_name(service_order()[1])[4] != t[4]);
    lemma_not_prefix_at(service_name(service_order()[1]), t, 4);
    reveal_strlit("dcs.controller.v0.ControllerService");
    assert(t[4] == path[5]);
    assert(service_name(service_order()[2])[4] != t[4]);
    lemma_not_prefix_at(service_name(service_order()[2]), t, 4);
    reveal_strlit("dcs.custom.v0.CustomService");
    assert(t[4] == path[5]);
    assert(service_name(service_order()[3])[4] != t[4]);
    lemma_not_prefix_at(service_name(service_order()[3]), t, 4);
    assert(t.subrange(0, 25) =~= service_name(service_order()[4]));
    lemma_first_service_at(t, 4, 0);
}

proof fn lemma_route_hook(m: Seq<char>)
    ensures
        route_of("/dcs.hook.v0.HookService/"@ + m) == Some(DcsService::Hook),
{
    reveal_strlit("/dcs.hook.v0.HookService/");
    reveal_strlit("dcs.hook.v0.HookService");
    let path = "/dcs.hook.v0.HookService/"@ + m;
    assert(path[0] == '/' && path[1] == 'd');
    lemma_trim_one_slash(path);
    let t = path.subrange(1, path.len() as int);
    reveal_strlit("dcs.atmosphere.v0.AtmosphereService");
    assert(t[4] == path[5]);
    assert(service_name(service_order()[0])[4] != t[4]);
    lemma_not_prefix_at(service_name(service_order()[0]), t, 4);
    reveal_strlit("dcs.coalition.v0.CoalitionService");
    assert(t[4] == path[5]);
    assert(service_name(service_order()[1])[4] != t[4]);
    lemma_not_prefix_at(service_name(service_order()[1]), t, 4);
    reveal_strlit("dcs.controller.v0.ControllerService");
    assert(t[4] == path[5]);
    assert(service_name(service_order()[2])[4] != t[4]);
    lemma_not_prefix_at(service_name(service_order()[2]), t, 4);
    reveal_strlit("dcs.custom.v0.CustomService");
    assert(t[4] == path[5]);
    assert(service_name(service_order()[3])[4] != t[4]);
    lemma_not_prefix_at(service_name(service_order()[3]), t, 4);
    reveal_strlit("dcs.group.v0.GroupService");
    assert(t[4] == path[5]);
    assert(service_name(service_order()[4])[4] != t[4]);
    lemma_not_prefix_at(service_name(service_order()[4]), t, 4);
    assert(t.subrange(0, 23) =~= service_name(service_order()[5]));
    lemma_first_service_at(t, 5, 0);
}

proof fn lemma_route_mission(m: Seq<char>)
    ensures
        route_of("/dcs.mission.v0.MissionService/"@ + m) == Some(DcsService::Mission),
{
    reveal_strlit("/dcs.mission.v0.MissionService/");
    reveal_strlit("dcs.mission.v0.MissionService");
    let path = "/dcs.mission.v0.MissionService/"@ + m;
    assert(path[0] == '/' && path[1] == 'd');
    lemma_trim_one_slash(path);
    let t = path.subrange(1, path.len() as int);
    reveal_strlit("dcs.atmosphere.v0.AtmosphereService");
    assert(t[4] == path[5]);
    assert(service_name(service_order()[0])[4] != t[4]);
    lemma_not_prefix_at(service_name(service_order()[0]), t, 4);
    reveal_strlit("dcs.coalition.v0.CoalitionService");
    assert(t[4] == path[5]);
    assert(service_name(service_order()[1])[4] != t[4]);
    lemma_not_prefix_at(service_name(service_order()[1]), t, 4);
    reveal_strlit("dcs.controller.v0.ControllerService");
    assert(t[4] == path[5]);
    assert(service_name(service_order()[2])[4] != t[4]);
    lemma_not_prefix_at(service_name(service_order()[2]), t, 4);
    reveal_strlit("dcs.custom.v0.CustomService");
    assert(t[4] == path[5]);
    assert(service_name(service_order()[3])[4] != t[4]);
    lemma_not_prefix_at(service_name(service_order()[3]), t, 4);
    reveal_strlit("dcs.group.v0.GroupService");
    assert(t[4] == path[5]);
    assert(service_name(service_order()[4])[4] != t[4]);
    lemma_not_prefix_at(service_name(service_order()[4]), t, 4);
    reveal_strlit("dcs.hook.v0.HookService");
    assert(t[4] == path[5]);
    assert(service_name(service_order()[5])[4] != t[4]);
    lemma_not_prefix_at(service_name(service_order()[5]), t, 4);
    assert(t.subrange(0, 29) =~= service_name(service_order()[6]));
    lemma_first_service_at(t, 6, 0);
}

proof fn lemma_route_net(m: Seq<char>)
    ensures
        route_of("/dcs.net.v0.NetService/"@ + m) == Some(DcsService::Net),
{
    reveal_strlit("/dcs.net.v0.NetService/");
    reveal_strlit("dcs.net.v0.NetService");
    let path = "/dcs.net.v0.NetService/"@ + m;
    assert(path[0] == '/' && path[1] == 'd');
    lemma_trim_one_slash(path);
    let t = path.subrange(1, path.len() as int);
    reveal_strlit("dcs.atmosphere.v0.AtmosphereService");
    assert(t[4] == path[5]);
    assert(service_name(service_order()[0])[4] != t[4]);
    lemma_not_prefix_at(service_name(service_order()[0]), t, 4);
    reveal_strlit("dcs.coalition.v0.CoalitionService");
    assert(t[4] == path[5]);
    assert(service_name(service_order()[1])[4] != t[4]);
    lemma_not_prefix_at(service_name(service_order()[1]), t, 4);
    reveal_strlit("dcs.controller.v0.ControllerService");
    assert(t[4] == path[5]);
    assert(service_name(service_order()[2])[4] != t[4]);
    lemma_not_prefix_at(service_name(service_order()[2]), t, 4);
    reveal_strlit("dcs.custom.v0.CustomService");
    assert(t[4] == path[5]);
    assert(service_name(service_order()[3])[4] != t[4]);
    lemma_not_prefix_at(service_name(service_order()[3]), t, 4);
    reveal_strlit("dcs.group.v0.GroupService");
    assert(t[4] == path[5]);
    assert(service_name(service_order()[4])[4] != t[4]);
    lemma_not_prefix_at(service_name(service_order()[4]), t, 4);
    reveal_strlit("dcs.hook.v0.HookService");
    assert(t[4] == path[5]);
    assert(service_name(service_order()[5])[4] != t[4]);
    lemma_not_prefix_at(service_name(service_order()[5]), t, 4);
    reveal_strlit("dcs.mission.v0.MissionService");
    assert(t[4] == path[5]);
    assert(service_name(service_order()[6])[4] != t[4]);
    lemma_not_prefix_at(service_name(service_order()[6]), t, 4);
    assert(t.subrange(0, 21) =~= service_name(service_order()[7]));
    lemma_first_service_at(t, 7, 0);
}

proof fn lemma_route_timer(m: Seq<char>)
    ensures
        route_of("/dcs.timer.v0.TimerService/"@ + m) == Some(DcsService::Timer),
{
    reveal_strlit("/dcs.timer.v0.TimerService/");
    reveal_strlit("dcs.timer.v0.TimerService");
    let path = "/dcs.timer.v0.TimerService/"@ + m;
    assert(path[0] == '/' && path[1] == 'd');
    lemma_trim_one_slash(path);
    let t = path.subrange(1, path.len() as int);
    reveal_strlit("dcs.atmosphere.v0.AtmosphereService");
    assert(t[4] == path[5]);
    assert(service_name(service_order()[0])[4] != t[4]);
    lemma_not_prefix_at(service_name(service_order()[0]), t, 4);
    reveal_strlit("dcs.coalition.v0.CoalitionService");
    assert(t[4] == path[5]);
    assert(service_name(service_order()[1])[4] != t[4]);
    lemma_not_prefix_at(service_name(service_order()[1]), t, 4);
    reveal_strlit("dcs.controller.v0.ControllerService");
    assert(t[4] == path[5]);
    assert(service_name(service_order()[2])[4] != t[4]);
    lemma_not_prefix_at(service_name(service_order()[2]), t, 4);
    reveal_strlit("dcs.custom.v0.CustomService");
    assert(t[4] == path[5]);
    assert(service_name(service_order()[3])[4] != t[4]);
    lemma_not_prefix_at(service_name(service_order()[3]), t, 4);
    reveal_strlit("dcs.group.v0.GroupService");
    assert(t[4] == path[5]);
    assert(service_name(service_order()[4])[4] != t[4]);
    lemma_not_prefix_at(service_name(service_order()[4]), t, 4);
    reveal_strlit("dcs.hook.v0.HookService");
    assert(t[4] == path[5]);
    assert(service_name(service_order()[5])[4] != t[4]);
    lemma_not_prefix_at(service_name(service_order()[5]), t, 4);
    reveal_strlit("dcs.mission.v0.MissionService");
    assert(t[4] == path[5]);
    assert(service_name(service_order()[6])[4] != t[4]);
    lemma_not_prefix_at(service_name(service_order()[6]), t, 4);
    reveal_strlit("dcs.net.v0.NetService");
    assert(t[4] == path[5]);
    assert(service_name(service_order()[7])[4] != t[4]);
    lemma_not_prefix_at(service_name(service_order()[7]), t, 4);
    assert(t.subrange(0, 25) =~= service_name(service_order()[8]));
    lemma_first_service_at(t, 8, 0);
}

proof fn lemma_route_trigger(m: Seq<char>)
    ensures
        route_of("/dcs.trigger.v0.TriggerService/"@ + m) == Some(DcsService::Trigger),
{
    reveal_strlit("/dcs.trigger.v0.TriggerService/");
    reveal_strlit("dcs.trigger.v0.TriggerService");
    let path = "/dcs.trigger.v0.TriggerService/"@ + m;
    assert(path[0] == '/' && path[1] == 'd');
    lemma_trim_one_slash(path);
    let t = path.subrange(1, path.len() as int);
    reveal_strlit("dcs.atmosphere.v0.AtmosphereService");
    assert(t[4] == path[5]);
    assert(service_name(service_order()[0])[4] != t[4]);
    lemma_not_prefix_at(service_name(service_order()[0]), t, 4);
    reveal_strlit("dcs.coalition.v0.CoalitionService");
    assert(t[4] == path[5]);
    assert(service_name(service_order()[1])[4] != t[4]);
    lemma_not_prefix_at(service_name(service_order()[1]), t, 4);
    reveal_strlit("dcs.controller.v0.ControllerService");
    assert(t[4] == path[5]);
    assert(service_name(service_order()[2])[4] != t[4]);
    lemma_not_prefix_at(service_name(service_order()[2]), t, 4);
    reveal_strlit("dcs.custom.v0.CustomService");
    assert(t[4] == path[5]);
    assert(service_name(service_order()[3])[4] != t[4]);
    lemma_not_prefix_at(service_name(service_order()[3]), t, 4);
    reveal_strlit("dcs.group.v0.GroupService");
    assert(t[4] == path[5]);
    assert(service_name(service_order()[4])[4] != t[4]);
    lemma_not_prefix_at(service_name(service_order()[4]), t, 4);
    reveal_strlit("dcs.hook.v0.HookService");
    assert(t[4] == path[5]);
    assert(service_name(service_order()[5])[4] != t[4]);
    lemma_not_prefix_at(service_name(service_order()[5]), t, 4);
    reveal_strlit("dcs.mission.v0.MissionService");
    assert(t[4] == path[5]);
    assert(service_name(service_order()[6])[4] != t[4]);
    lemma_not_prefix_at(service_name(service_order()[6]), t, 4);
    reveal_strlit("dcs.net.v0.NetService");
    assert(t[4] == path[5]);
    assert(service_name(service_order()[7])[4] != t[4]);
    lemma_not_prefix_at(service_name(service_order()[7]), t, 4);
    reveal_strlit("dcs.timer.v0.TimerService");
    assert(t[5] == path[6]);
    assert(service_name(service_order()[8])[5] != t[5]);
    lemma_not_prefix_at(service_name(service_order()[8]), t, 5);
    assert(t.subrange(0, 29) =~= service_name(service_order()[9]));
    lemma_first_service_at(t, 9, 0);
}

proof fn lemma_route_unit(m: Seq<char>)
    ensures
        route_of("/dcs.unit.v0.UnitService/"@ + m) == Some(DcsService::Unit),
{
    reveal_strlit("/dcs.unit.v0.UnitService/");
    reveal_strlit("dcs.unit.v0.UnitService");
    let path = "/dcs.unit.v0.UnitService/"@ + m;
    assert(path[0] == '/' && path[1] == 'd');
    lemma_trim_one_slash(path);
    let t = path.subrange(1, path.len() as int);
    reveal_strlit("dcs.atmosphere.v0.AtmosphereService");
    assert(t[4] == path[5]);
    assert(service_name(service_order()[0])[4] != t[4]);
    lemma_not_prefix_at(service_name(service_order()[0]), t, 4);
    reveal_strlit("dcs.coalition.v0.CoalitionService");
    assert(t[4] == path[5]);
    assert(service_name(service_order()[1])[4] != t[4]);
    lemma_not_prefix_at(service_name(service_order()[1]), t, 4);
    reveal_strlit("dcs.controller.v0.ControllerService");
    assert(t[4] == path[5]);
    assert(service_name(service_order()[2])[4] != t[4]);
    lemma_not_prefix_at(service_name(service_order()[2]), t, 4);
    reveal_strlit("dcs.custom.v0.CustomService");
    assert(t[4] == path[5]);
    assert(service_name(service_order()[3])[4] != t[4]);
    lemma_not_prefix_at(service_name(service_order()[3]), t, 4);
    reveal_strlit("dcs.group.v0.GroupService");
    assert(t[4] == path[5]);
    assert(service_name(service_order()[4])[4] != t[4]);
    lemma_not_prefix_at(service_name(service_order()[4]), t, 4);
    reveal_strlit("dcs.hook.v0.HookService");
    assert(t[4] == path[5]);
    assert(service_name(service_order()[5])[4] != t[4]);
    lemma_not_prefix_at(service_name(service_order()[5]), t, 4);
    reveal_strlit("dcs.mission.v0.MissionService");
    assert(t[4] == path[5]);
    assert(service_name(service_order()[6])[4] != t[4]);
    lemma_not_prefix_at(service_name(service_order()[6]), t, 4);
    reveal_strlit("dcs.net.v0.NetService");
    assert(t[4] == path[5]);
    assert(service_name(service_order()[7])[4] != t[4]);
    lemma_not_prefix_at(service_name(service_order()[7]), t, 4);
    reveal_strlit("dcs.timer.v0.TimerService");
    assert(t[4] == path[5]);
    assert(service_name(service_order()[8])[4] != t[4]);
    lemma_not_prefix_at(service_name(service_order()[8]), t, 4);
    reveal_strlit("dcs.trigger.v0.TriggerService");
    assert(t[4] == path[5]);
    assert(service_name(service_order()[9])[4] != t[4]);
    lemma_not_prefix_at(service_name(service_order()[9]), t, 4);
    assert(t.subrange(0, 23) =~= service_name(service_order()[10]));
    lemma_first_service_at(t, 10, 0);
}

proof fn lemma_route_world(m: Seq<char>)
    ensures
        route_of("/dcs.world.v0.WorldService/"@ + m) == Some(DcsService::World),
{
    reveal_strlit("/dcs.world.v0.WorldService/");
    reveal_strlit("dcs.world.v0.WorldService");
    let path = "/dcs.world.v0.WorldService/"@ + m;
    assert(path[0] == '/' && path[1] == 'd');
    lemma_trim_one_slash(path);
    let t = path.subrange(1, path.len() as int);
    reveal_strlit("dcs.atmosphere.v0.AtmosphereService");
    assert(t[4] == path[5]);
    assert(service_name(service_order()[0])[4] != t[4]);
    lemma_not_prefix_at(service_name(service_order()[0]), t, 4);
    reveal_strlit("dcs.coalition.v0.CoalitionService");
    assert(t[4] == path[5]);
    assert(service_name(service_order()[1])[4] != t[4]);
    lemma_not_prefix_at(service_name(service_order()[1]), t, 4);
    reveal_strlit("dcs.controller.v0.ControllerService");
    assert(t[4] == path[5]);
    assert(service_name(service_order()[2])[4] != t[4]);
    lemma_not_prefix_at(service_name(service_order()[2]), t, 4);
    reveal_strlit("dcs.custom.v0.CustomService");
    assert(t[4] == path[5]);
    assert(service_name(service_order()[3])[4] != t[4]);
    lemma_not_prefix_at(service_name(service_order()[3]), t, 4);
    reveal_strlit("dcs.group.v0.GroupService");
    assert(t[4] == path[5]);
    assert(service_name(service_order()[4])[4] != t[4]);
    lemma_not_prefix_at(service_name(service_order()[4]), t, 4);
    reveal_strlit("dcs.hook.v0.HookService");
    assert(t[4] == path[5]);
    assert(service_name(service_order()[5])[4] != t[4]);
    lemma_not_prefix_at(service_name(service_order()[5]), t, 4);
    reveal_strlit("dcs.mission.v0.MissionService");
    assert(t[4] == path[5]);
    assert(service_name(service_order()[6])[4] != t[4]);
    lemma_not_prefix_at(service_name(service_order()[6]), t, 4);
    reveal_strlit("dcs.net.v0.NetService");
    assert(t[4] == path[5]);
    assert(service_name(service_order()[7])[4] != t[4]);
    lemma_not_prefix_at(service_name(service_order()[7]), t, 4);
    reveal_strlit("dcs.timer.v0.TimerService");
    assert(t[4] == path[5]);
    assert(service_name(service_order()[8])[4] != t[4]);
    lemma_not_prefix_at(service_name(service_order()[8]), t, 4);
    reveal_strlit("dcs.trigger.v0.TriggerService");
    assert(t[4] == path[5]);
    assert(service_name(service_order()[9])[4] != t[4]);
    lemma_not_prefix_at(service_name(service_order()[9]), t, 4);
    reveal_strlit("dcs.unit.v0.UnitService");
    assert(t[4] == path[5]);
    assert(service_name(service_order()[10])[4] != t[4]);
    lemma_not_prefix_at(service_name(service_order()[10]), t, 4);
    assert(t.subrange(0, 25) =~= service_name(service_order()[11]));
    lemma_first_service_at(t, 11, 0);
}

/// A request whose path names a service, as `/<service>/<method>`, goes to that service:
/// the paths of the atmosphere, coalition, controller, custom, group, hook, mission, net,
/// timer, trigger, unit and world services each reach their own service.
pub proof fn lemma_routes_by_service_name(m: Seq<char>)
    ensures
        route_of("/dcs.atmosphere.v0.AtmosphereService/"@ + m) == Some(DcsService::Atmosphere),
        route_of("/dcs.coalition.v0.CoalitionService/"@ + m) == Some(DcsService::Coalition),
        route_of("/dcs.controller.v0.ControllerService/"@ + m) == Some(DcsService::Controller),
        route_of("/dcs.custom.v0.CustomService/"@ + m) == Some(DcsService::Custom),
        route_of("/dcs.group.v0.GroupService/"@ + m) == Some(DcsService::Group),
        route_of("/dcs.hook.v0.HookService/"@ + m) == Some(DcsService::Hook),
        route_of("/dcs.mission.v0.MissionService/"@ + m) == Some(DcsService::Mission),
        route_of("/dcs.net.v0.NetService/"@ + m) == Some(DcsService::Net),
        route_of("/dcs.timer.v0.TimerService/"@ + m) == Some(DcsService::Timer),
        route_of("/dcs.trigger.v0.TriggerService/"@ + m) == Some(DcsService::Trigger),
        route_of("/dcs.unit.v0.UnitService/"@ + m) == Some(DcsService::Unit),
        route_of("/dcs.world.v0.WorldService/"@ + m) == Some(DcsService::World),
{
    lemma_route_atmosphere(m);
    lemma_route_coalition(m);
    lemma_route_controller(m);
    lemma_route_custom(m);
    lemma_route_group(m);
    lemma_route_hook(m);
    lemma_route_mission(m);
    lemma_route_net(m);
    lemma_route_timer(m);
    lemma_route_trigger(m);
    lemma_route_unit(m);
    lemma_route_world(m);
}

} // verus!
