//! Who is recording from the virtual cable, and what the engine is told of it.
//!
//! The monitor keeps no count of its own: on every notification the sessions
//! are looked at anew, and the engine is told only of a change. A device's
//! endpoints share a container identifier; only the capture endpoints with that
//! of the output are watched.
use crate::engine::{CommandView, EngineCommand};
use crate::text;
use vstd::prelude::*;

verus! {

/// The type tag of a property that holds an identifier.
pub const VT_CLSID: u16 = 72;

/// The state code of a session that is running.
pub const SESSION_ACTIVE: i32 = 1;

/// The state code of a session that is over.
pub const SESSION_EXPIRED: i32 = 2;

/// The container identifier that a property holds: none where the property is
/// of another type.
pub fn container_of(tag: u16, value: Option<u128>) -> (id: Option<u128>)
    ensures
        id == if tag == VT_CLSID {
            value
        } else {
            None
        },
{
    if tag != VT_CLSID {
        return None;
    }
    value
}

/// The endpoint belongs to the device that is watched. Without a device to
/// watch there is none.
pub open spec fn watched(watch: Option<u128>, container: Option<u128>) -> bool {
    watch is Some && container == watch
}

/// Whether an endpoint with this container identifier is watched.
pub fn is_watched(watch: Option<u128>, container: Option<u128>) -> (yes: bool)
    ensures
        yes == watched(watch, container),
{
    match (watch, container) {
        (Some(target), Some(id)) => target == id,
        _ => false,
    }
}

/// A capture session: its state and its process, where they could be read.
#[derive(Debug, Clone, Copy, PartialEq, Eq, Structural)]
pub struct SessionInfo {
    pub state: Option<i32>,
    pub process: Option<u32>,
}

/// A capture endpoint: the container identifier, where it could be read, and the
/// sessions that could be listed.
pub struct EndpointSessions {
    pub container: Option<u128>,
    pub sessions: Vec<SessionInfo>,
}

/// A session that counts: it is running, and not this process's own.
pub open spec fn counts(session: SessionInfo, own_process: u32) -> bool {
    session.state == Some(SESSION_ACTIVE) && session.process != Some(own_process)
}

/// How many sessions of an endpoint count.
pub open spec fn active_on(sessions: Seq<SessionInfo>, own_process: u32) -> nat
    decreases sessions.len(),
{
    if sessions.len() == 0 {
        0
    } else {
        active_on(sessions.drop_last(), own_process) + if counts(sessions.last(), own_process) {
            1nat
        } else {
            0nat
        }
    }
}

/// How many sessions count on all the endpoints that are watched.
pub open spec fn active_sessions(
    watch: Option<u128>,
    endpoints: Seq<EndpointSessions>,
    own_process: u32,
) -> nat
    decreases endpoints.len(),
{
    if endpoints.len() == 0 {
        0
    } else {
        active_sessions(watch, endpoints.drop_last(), own_process) + if watched(
            watch,
            endpoints.last().container,
        ) {
            active_on(endpoints.last().sessions@, own_process)
        } else {
            0
        }
    }
}

proof fn fewer_are_no_more_active(
    watch: Option<u128>,
    endpoints: Seq<EndpointSessions>,
    own_process: u32,
    i: int,
)
    requires
        0 <= i <= endpoints.len(),
    ensures
        active_sessions(watch, endpoints.take(i), own_process) <= active_sessions(
            watch,
            endpoints,
            own_process,
        ),
    decreases endpoints.len() - i,
{
    if i < endpoints.len() {
        assert(endpoints.take(i + 1).drop_last() =~= endpoints.take(i));
        fewer_are_no_more_active(watch, endpoints, own_process, i + 1);
    } else {
        assert(endpoints.take(i) =~= endpoints);
    }
}

/// Count the sessions of an endpoint that count.
fn count_on(sessions: &Vec<SessionInfo>, own_process: u32) -> (active: usize)
    ensures
        active == active_on(sessions@, own_process),
{
    let mut active: usize = 0;
    let total: usize = sessions.len();
    for j in 0..total
        invariant
            total == sessions@.len(),
            active == active_on(sessions@.take(j as int), own_process),
            active <= j,
    {
        assert(sessions@.take(j + 1).drop_last() =~= sessions@.take(j as int));
        let session = sessions[j];
        let running = match session.state {
            Some(state) => state == SESSION_ACTIVE,
            None => false,
        };
        let own = match session.process {
            Some(process) => process == own_process,
            None => false,
        };
        if running && !own {
            active = active + 1;
        }
    }
    assert(sessions@.take(total as int) =~= sessions@);
    active
}

/// Count the active sessions on the endpoints of the device that is watched.
pub fn count_active_sessions(
    watch: Option<u128>,
    endpoints: &Vec<EndpointSessions>,
    own_process: u32,
) -> (active: usize)
    requires
        active_sessions(watch, endpoints@, own_process) <= usize::MAX,
    ensures
        active == active_sessions(watch, endpoints@, own_process),
{
    let mut active: usize = 0;
    for i in 0..endpoints.len()
        invariant
            active_sessions(watch, endpoints@, own_process) <= usize::MAX,
            active == active_sessions(watch, endpoints@.take(i as int), own_process),
    {
        proof {
            assert(endpoints@.take(i + 1).drop_last() =~= endpoints@.take(i as int));
            fewer_are_no_more_active(watch, endpoints@, own_process, i + 1);
        }
        if is_watched(watch, endpoints[i].container) {
            let here: usize = count_on(&endpoints[i].sessions, own_process);
            active = active + here;
        }
    }
    assert(endpoints@.take(endpoints@.len() as int) =~= endpoints@);
    active
}

/// Some session of the endpoint counts.
pub open spec fn recorded(sessions: Seq<SessionInfo>, own_process: u32) -> bool {
    exists|j: int| 0 <= j < sessions.len() && counts(#[trigger] sessions[j], own_process)
}

/// Some session of an endpoint counts exactly where the number is not zero.
proof fn active_on_means_recorded(sessions: Seq<SessionInfo>, own_process: u32)
    ensures
        active_on(sessions, own_process) > 0 <==> recorded(sessions, own_process),
    decreases sessions.len(),
{
    if sessions.len() > 0 {
        let shorter = sessions.drop_last();
        active_on_means_recorded(shorter, own_process);
        if recorded(shorter, own_process) {
            let j = choose|j: int|
                0 <= j < shorter.len() && counts(#[trigger] shorter[j], own_process);
            assert(counts(sessions[j], own_process));
        }
        if recorded(sessions, own_process) && !counts(sessions.last(), own_process) {
            let j = choose|j: int|
                0 <= j < sessions.len() && counts(#[trigger] sessions[j], own_process);
            assert(counts(shorter[j], own_process));
        }
    }
}

/// The count is not zero exactly where some other process is recording from the
/// watched device: sessions of this process, and sessions on other devices, do
/// not matter.
pub proof fn active_means_someone_records(
    watch: Option<u128>,
    endpoints: Seq<EndpointSessions>,
    own_process: u32,
)
    ensures
        active_sessions(watch, endpoints, own_process) > 0 <==> exists|i: int|
            0 <= i < endpoints.len() && watched(watch, (#[trigger] endpoints[i]).container)
                && recorded(endpoints[i].sessions@, own_process),
    decreases endpoints.len(),
{
    if endpoints.len() > 0 {
        let shorter = endpoints.drop_last();
        active_means_someone_records(watch, shorter, own_process);
        active_on_means_recorded(endpoints.last().sessions@, own_process);
        assert forall|i: int|
            0 <= i < shorter.len() && watched(watch, (#[trigger] shorter[i]).container) && recorded(
                shorter[i].sessions@,
                own_process,
            ) implies endpoints[i] == shorter[i] by {}
        assert forall|i: int|
            0 <= i < endpoints.len() - 1 implies #[trigger] endpoints[i] == shorter[i] by {}
    }
}

/// The places of the endpoints that are watched, in order.
pub open spec fn watched_places(watch: Option<u128>, containers: Seq<Option<u128>>) -> Seq<usize>
    decreases containers.len(),
{
    if containers.len() == 0 {
        Seq::empty()
    } else {
        let before = watched_places(watch, containers.drop_last());
        if watched(watch, containers.last()) {
            before.push((containers.len() - 1) as usize)
        } else {
            before
        }
    }
}

/// The endpoints to watch, by their places among all capture endpoints.
pub fn watched_endpoints(watch: Option<u128>, containers: &Vec<Option<u128>>) -> (places: Vec<
    usize,
>)
    ensures
        places@ == watched_places(watch, containers@),
{
    let mut places: Vec<usize> = Vec::new();
    for i in 0..containers.len()
        invariant
            places@ == watched_places(watch, containers@.take(i as int)),
    {
        assert(containers@.take(i + 1).drop_last() =~= containers@.take(i as int));
        if is_watched(watch, containers[i]) {
            places.push(i);
        }
    }
    assert(containers@.take(containers@.len() as int) =~= containers@);
    places
}

/// Exactly the endpoints of the watched device are watched; with no device to
/// watch there are none.
pub proof fn watched_places_are_the_watched(
    watch: Option<u128>,
    containers: Seq<Option<u128>>,
    place: usize,
)
    requires
        containers.len() <= usize::MAX,
    ensures
        watched_places(watch, containers).contains(place) <==> place < containers.len() && watched(
            watch,
            containers[place as int],
        ),
        watch is None ==> watched_places(watch, containers).len() == 0,
    decreases containers.len(),
{
    if containers.len() > 0 {
        let shorter = containers.drop_last();
        let before = watched_places(watch, shorter);
        let last = (containers.len() - 1) as usize;
        watched_places_are_the_watched(watch, shorter, place);
        if watched(watch, containers.last()) {
            let all = before.push(last);
            assert(all.last() == last);
            if before.contains(place) {
                let k = choose|k: int| 0 <= k < before.len() && before[k] == place;
                assert(all[k] == place);
            }
            if all.contains(place) && place != last {
                let k = choose|k: int| 0 <= k < all.len() && all[k] == place;
                assert(before[k] == place);
            }
            if place == last {
                assert(all.contains(place));
            }
        }
    }
}

/// What the engine was last told.
pub struct Monitor {
    engine_running: bool,
}

/// What the engine is told when so many sessions are active: nothing but a
/// change.
pub open spec fn told(running: bool, active: nat) -> Option<CommandView> {
    if active > 0 && !running {
        Some(CommandView::Resume)
    } else if active == 0 && running {
        Some(CommandView::Pause)
    } else {
        None
    }
}

impl Monitor {
    /// The engine was last told to resume.
    pub closed spec fn running(self) -> bool {
        self.engine_running
    }

    /// A monitor that has told the engine nothing yet.
    pub fn new() -> (monitor: Self)
        ensures
            !monitor.running(),
    {
        Monitor { engine_running: false }
    }

    /// Take note of how many sessions are active. Returns the command to send,
    /// if any.
    pub fn recheck(&mut self, active: usize) -> (command: Option<EngineCommand>)
        ensures
            final(self).running() == (active > 0),
            match command {
                Some(c) => told(old(self).running(), active as nat) == Some(c@),
                None => told(old(self).running(), active as nat) is None,
            },
    {
        let was_running = self.engine_running;
        self.engine_running = active > 0;
        if active > 0 {
            if !was_running {
                return Some(EngineCommand::Resume);
            }
        } else if was_running {
            return Some(EngineCommand::Pause);
        }
        None
    }
}

/// The commands that a monitor sends over a series of looks.
pub open spec fn commands(running: bool, looks: Seq<nat>) -> Seq<CommandView>
    decreases looks.len(),
{
    if looks.len() == 0 {
        Seq::empty()
    } else {
        let later = commands(looks[0] > 0, looks.drop_first());
        match told(running, looks[0]) {
            Some(command) => seq![command] + later,
            None => later,
        }
    }
}

/// Over any series of looks the engine hears Resume and Pause in turn, first
/// the one that it was not last told, and the last word agrees with the last
/// look.
pub proof fn commands_alternate(running: bool, looks: Seq<nat>)
    ensures
        ({
            let sent = commands(running, looks);
            &&& forall|i: int|
                0 <= i < sent.len() ==> #[trigger] sent[i] == if (i % 2 == 0) == running {
                    CommandView::Pause
                } else {
                    CommandView::Resume
                }
            &&& looks.len() > 0 && sent.len() > 0 ==> sent.last() == if looks.last() > 0 {
                CommandView::Resume
            } else {
                CommandView::Pause
            }
            &&& looks.len() > 0 && sent.len() == 0 ==> running == (looks.last() > 0)
        }),
    decreases looks.len(),
{
    if looks.len() > 0 {
        let rest = looks.drop_first();
        let later = commands(looks[0] > 0, rest);
        let sent = commands(running, looks);
        commands_alternate(looks[0] > 0, rest);
        if told(running, looks[0]) is Some {
            assert forall|i: int| 0 <= i < sent.len() implies #[trigger] sent[i] == if (i % 2 == 0)
                == running {
                CommandView::Pause
            } else {
                CommandView::Resume
            } by {
                if i > 0 {
                    assert(sent[i] == later[i - 1]);
                }
            }
        }
        if rest.len() > 0 {
            assert(rest.last() == looks.last());
            if later.len() > 0 {
                assert(sent.last() == later.last());
            }
        }
    }
}

/// What a session's notification is about.
#[derive(Debug, Clone, Copy, PartialEq, Eq, Structural)]
pub enum SessionNotice {
    /// The session changed to the state with this code.
    StateChanged(i32),
    /// The session was disconnected.
    Disconnected,
}

/// Whether registrations may be left over after the notification.
pub fn needs_prune(notice: SessionNotice) -> (yes: bool)
    ensures
        yes == (notice == SessionNotice::Disconnected || notice == SessionNotice::StateChanged(
            SESSION_EXPIRED,
        )),
{
    match notice {
        SessionNotice::StateChanged(state) => state == SESSION_EXPIRED,
        SessionNotice::Disconnected => true,
    }
}

/// A session: its instance identifier, where it could be read, and the address
/// of its control object.
pub struct SessionKey {
    pub instance_id: Option<String>,
    pub address: u64,
}

/// A registration: the session, and a number for its callback object.
pub struct Registration {
    pub key: SessionKey,
    pub token: u64,
}

/// The two are one session: by their instance identifiers where both have one,
/// else by their addresses.
pub open spec fn one_session(a: SessionKey, b: SessionKey) -> bool {
    match (a.instance_id, b.instance_id) {
        (Some(x), Some(y)) => x@ == y@,
        _ => a.address == b.address,
    }
}

/// Whether the two are one session.
pub fn same_session(a: &SessionKey, b: &SessionKey) -> (same: bool)
    ensures
        same == one_session(*a, *b),
{
    match (&a.instance_id, &b.instance_id) {
        (Some(x), Some(y)) => text::same(x.as_str(), y.as_str()),
        _ => a.address == b.address,
    }
}

/// The registration is kept: its session's state could be read, and the session
/// is not over.
pub open spec fn alive(state: Option<i32>) -> bool {
    state is Some && state != Some(SESSION_EXPIRED)
}

/// The registrations that are kept.
pub open spec fn kept(entries: Seq<Registration>, states: Seq<Option<i32>>) -> Seq<Registration>
    decreases entries.len(),
{
    if entries.len() == 0 {
        Seq::empty()
    } else {
        let before = kept(entries.drop_last(), states);
        if alive(states[entries.len() - 1]) {
            before.push(entries.last())
        } else {
            before
        }
    }
}

/// The tokens of the registrations that are not kept.
pub open spec fn removed(entries: Seq<Registration>, states: Seq<Option<i32>>) -> Seq<u64>
    decreases entries.len(),
{
    if entries.len() == 0 {
        Seq::empty()
    } else {
        let before = removed(entries.drop_last(), states);
        if alive(states[entries.len() - 1]) {
            before
        } else {
            before.push(entries.last().token)
        }
    }
}

/// The tokens of all registrations.
pub open spec fn tokens(entries: Seq<Registration>) -> Seq<u64> {
    entries.map_values(|entry: Registration| entry.token)
}

/// Some registration is for this session.
pub open spec fn known(entries: Seq<Registration>, key: SessionKey) -> bool {
    exists|i: int| 0 <= i < entries.len() && one_session((#[trigger] entries[i]).key, key)
}

/// No session is registered twice.
pub open spec fn distinct(entries: Seq<Registration>) -> bool {
    forall|i: int, j: int|
        0 <= i < j < entries.len() ==> !one_session(
            (#[trigger] entries[i]).key,
            (#[trigger] entries[j]).key,
        )
}

/// Each registration that is kept was there before, in the same order.
proof fn kept_come_from(entries: Seq<Registration>, states: Seq<Option<i32>>)
    ensures
        forall|i: int|
            0 <= i < kept(entries, states).len() ==> entries.contains(
                #[trigger] kept(entries, states)[i],
            ),
        distinct(entries) ==> distinct(kept(entries, states)),
    decreases entries.len(),
{
    if entries.len() > 0 {
        let shorter = entries.drop_last();
        let before = kept(shorter, states);
        let all = kept(entries, states);
        kept_come_from(shorter, states);
        assert forall|i: int| 0 <= i < all.len() implies entries.contains(#[trigger] all[i]) by {
            if i < before.len() {
                assert(all[i] == before[i]);
                let k = choose|k: int| 0 <= k < shorter.len() && shorter[k] == before[i];
                assert(entries[k] == all[i]);
            } else {
                assert(entries[entries.len() - 1] == all[i]);
            }
        }
        if distinct(entries) {
            assert(distinct(shorter)) by {
                assert forall|i: int, j: int| 0 <= i < j < shorter.len() implies !one_session(
                    (#[trigger] shorter[i]).key,
                    (#[trigger] shorter[j]).key,
                ) by {
                    assert(entries[i] == shorter[i] && entries[j] == shorter[j]);
                }
            }
            assert forall|i: int, j: int| 0 <= i < j < all.len() implies !one_session(
                (#[trigger] all[i]).key,
                (#[trigger] all[j]).key,
            ) by {
                assert(all[i] == before[i]);
                if j < before.len() {
                    assert(all[j] == before[j]);
                } else {
                    let k = choose|k: int| 0 <= k < shorter.len() && shorter[k] == before[i];
                    assert(entries[k] == before[i]);
                    assert(entries[entries.len() - 1] == all[j]);
                }
            }
        }
    }
}

/// The sessions with a callback of ours.
pub struct SessionRegistry {
    entries: Vec<Registration>,
}

impl View for SessionRegistry {
    type V = Seq<Registration>;

    closed spec fn view(&self) -> Seq<Registration> {
        self.entries@
    }
}

impl SessionRegistry {
    /// No session is registered twice.
    #[verifier::type_invariant]
    spec fn no_doubles(self) -> bool {
        distinct(self.entries@)
    }

    /// No registrations.
    pub fn new() -> (registry: Self)
        ensures
            registry@ == Seq::<Registration>::empty(),
    {
        SessionRegistry { entries: Vec::new() }
    }

    /// The tokens of all registrations.
    pub fn tokens(&self) -> (all: Vec<u64>)
        ensures
            all@ == tokens(self@),
    {
        let mut all: Vec<u64> = Vec::new();
        for i in 0..self.entries.len()
            invariant
                all@ == tokens(self@.take(i as int)),
        {
            all.push(self.entries[i].token);
            assert(all@ =~= tokens(self@.take(i + 1)));
        }
        assert(self@.take(self@.len() as int) =~= self@);
        all
    }

    /// Whether the session is registered.
    pub fn knows(&self, key: &SessionKey) -> (yes: bool)
        ensures
            yes == known(self@, *key),
    {
        for i in 0..self.entries.len()
            invariant
                forall|j: int| 0 <= j < i ==> !one_session((#[trigger] self@[j]).key, *key),
        {
            if same_session(&self.entries[i].key, key) {
                return true;
            }
        }
        false
    }

    /// Keep the registrations whose sessions are alive; `states` are the
    /// sessions' states, in the order of the registrations. Returns the tokens
    /// of the others.
    pub fn prune(&mut self, states: &Vec<Option<i32>>) -> (gone: Vec<u64>)
        requires
            states@.len() == old(self)@.len(),
        ensures
            final(self)@ == kept(old(self)@, states@),
            distinct(final(self)@),
            gone@ == removed(old(self)@, states@),
    {
        proof {
            use_type_invariant(&*self);
            kept_come_from(self@, states@);
        }
        let mut rest: Vec<Registration> = Vec::new();
        let mut gone: Vec<u64> = Vec::new();
        let mut old_entries: Vec<Registration> = Vec::new();
        std::mem::swap(&mut self.entries, &mut old_entries);
        let ghost before = old_entries@;
        let total: usize = states.len();
        let mut i: usize = 0;
        while old_entries.len() > 0
            invariant
                total == states@.len(),
                before.len() == states@.len(),
                i + old_entries@.len() == before.len(),
                old_entries@ == before.skip(i as int),
                rest@ == kept(before.take(i as int), states@),
                gone@ == removed(before.take(i as int), states@),
            decreases old_entries@.len(),
        {
            let entry = old_entries.remove(0);
            assert(entry == before[i as int]);
            assert(before.take(i + 1).drop_last() =~= before.take(i as int));
            let stays = match states[i] {
                Some(state) => state != SESSION_EXPIRED,
                None => false,
            };
            if stays {
                rest.push(entry);
            } else {
                gone.push(entry.token);
            }
            i = i + 1;
        }
        assert(before.take(i as int) =~= before);
        self.entries = rest;
        gone
    }

    /// Note the registration of a session that has just been made, unless the
    /// session is registered already. Returns whether it was noted; where not,
    /// the new registration is to be undone.
    pub fn note(&mut self, key: SessionKey, token: u64) -> (noted: bool)
        ensures
            noted == !known(old(self)@, key),
            noted ==> final(self)@ == old(self)@.push(Registration { key, token }),
            !noted ==> final(self)@ == old(self)@,
            distinct(final(self)@),
    {
        proof {
            use_type_invariant(&*self);
        }
        if self.knows(&key) {
            return false;
        }
        let mut entries: Vec<Registration> = Vec::new();
        std::mem::swap(&mut self.entries, &mut entries);
        entries.push(Registration { key, token });
        self.entries = entries;
        true
    }

    /// Forget all registrations. Returns their tokens.
    pub fn drain(&mut self) -> (gone: Vec<u64>)
        ensures
            final(self)@ == Seq::<Registration>::empty(),
            gone@ == tokens(old(self)@),
    {
        let gone = self.tokens();
        self.entries = Vec::new();
        gone
    }
}

/// The codes are the system's.
pub proof fn codes_are_the_systems()
    ensures
        VT_CLSID == 72,
        SESSION_ACTIVE == 1,
        SESSION_EXPIRED == 2,
{
}

/// A running session of any other process counts as one, whatever the numbers of
/// the two processes, and so does one whose process cannot be read; one of this
/// process, or in any other state, counts as none.
pub proof fn a_session_of_another_counts(
    sessions: Seq<SessionInfo>,
    state: Option<i32>,
    process: Option<u32>,
    own_process: u32,
)
    ensures
        active_on(Seq::<SessionInfo>::empty(), own_process) == 0,
        state == Some(1i32) && process != Some(own_process) ==> active_on(
            sessions.push(SessionInfo { state, process }),
            own_process,
        ) == active_on(sessions, own_process) + 1,
        state != Some(1i32) || process == Some(own_process) ==> active_on(
            sessions.push(SessionInfo { state, process }),
            own_process,
        ) == active_on(sessions, own_process),
        state == Some(1i32) && process != Some(own_process) ==> active_on(
            seq![SessionInfo { state, process }],
            own_process,
        ) == 1,
        state != Some(1i32) || process == Some(own_process) ==> active_on(
            seq![SessionInfo { state, process }],
            own_process,
        ) == 0,
{
    let session = SessionInfo { state, process };
    assert(sessions.push(session).drop_last() =~= sessions);
    assert(seq![session].drop_last() =~= Seq::<SessionInfo>::empty());
    assert(active_on(Seq::<SessionInfo>::empty(), own_process) == 0);
}

/// Every endpoint of the watched device adds the sessions that count on it, and
/// every other endpoint adds none; with no device to watch the count is zero.
pub proof fn endpoints_of_the_device_add_up(
    watch: Option<u128>,
    endpoints: Seq<EndpointSessions>,
    endpoint: EndpointSessions,
    own_process: u32,
)
    ensures
        active_sessions(watch, Seq::<EndpointSessions>::empty(), own_process) == 0,
        watch is Some && endpoint.container == watch ==> active_sessions(
            watch,
            endpoints.push(endpoint),
            own_process,
        ) == active_sessions(watch, endpoints, own_process) + active_on(
            endpoint.sessions@,
            own_process,
        ),
        watch is None || endpoint.container != watch ==> active_sessions(
            watch,
            endpoints.push(endpoint),
            own_process,
        ) == active_sessions(watch, endpoints, own_process),
{
    assert(endpoints.push(endpoint).drop_last() =~= endpoints);
}

/// The places of the watched endpoints come in rising order, none twice, and are
/// just those whose container is the watched one.
pub proof fn watched_places_rise(watch: Option<u128>, containers: Seq<Option<u128>>)
    requires
        containers.len() <= usize::MAX,
    ensures
        forall|i: int, j: int|
            0 <= i < j < watched_places(watch, containers).len() ==> #[trigger] watched_places(
                watch,
                containers,
            )[i] < #[trigger] watched_places(watch, containers)[j],
        forall|i: int|
            0 <= i < watched_places(watch, containers).len() ==> (#[trigger] watched_places(
                watch,
                containers,
            )[i]) < containers.len(),
        forall|place: usize|
            #![trigger watched_places(watch, containers).contains(place)]
            watched_places(watch, containers).contains(place) <==> place < containers.len()
                && watch is Some && containers[place as int] == watch,
    decreases containers.len(),
{
    let all = watched_places(watch, containers);
    if containers.len() > 0 {
        let before = watched_places(watch, containers.drop_last());
        watched_places_rise(watch, containers.drop_last());
        assert forall|i: int| 0 <= i < all.len() implies (#[trigger] all[i]) < containers.len() by {
            if i < before.len() {
                assert(all[i] == before[i]);
            }
        }
        assert forall|i: int, j: int| 0 <= i < j < all.len() implies #[trigger] all[i]
            < #[trigger] all[j] by {
            assert(all[i] == before[i]);
            if j < before.len() {
                assert(all[j] == before[j]);
            }
        }
    }
    assert forall|place: usize|
        #![trigger watched_places(watch, containers).contains(place)]
        watched_places(watch, containers).contains(place) <==> place < containers.len() && watch
            is Some && containers[place as int] == watch by {
        watched_places_are_the_watched(watch, containers, place);
    }
}

/// The engine is told to resume exactly where someone records and it was not
/// running, to pause exactly where nobody does and it was, and nothing else.
pub proof fn only_changes_are_told(running: bool, active: nat)
    ensures
        told(running, active) == Some(CommandView::Resume) <==> active > 0 && !running,
        told(running, active) == Some(CommandView::Pause) <==> active == 0 && running,
        told(running, active) is None <==> running == (active > 0),
{
}

/// Two sessions that both have an instance identifier are one exactly where
/// these agree; where either has none, exactly where their addresses do.
pub proof fn sessions_are_told_apart(a: SessionKey, b: SessionKey)
    ensures
        a.instance_id is Some && b.instance_id is Some ==> (one_session(a, b) <==> a.instance_id->0@
            == b.instance_id->0@),
        a.instance_id is None || b.instance_id is None ==> (one_session(a, b) <==> a.address
            == b.address),
        one_session(a, b) == one_session(b, a),
{
}

proof fn later_states_do_not_matter(
    entries: Seq<Registration>,
    states: Seq<Option<i32>>,
    more: Seq<Option<i32>>,
)
    requires
        entries.len() <= states.len(),
        states.len() <= more.len(),
        forall|i: int| 0 <= i < states.len() ==> more[i] == states[i],
    ensures
        kept(entries, more) == kept(entries, states),
        removed(entries, more) == removed(entries, states),
    decreases entries.len(),
{
    if entries.len() > 0 {
        later_states_do_not_matter(entries.drop_last(), states, more);
    }
}

/// Pruning keeps each registration whose session's state can be read and is not
/// that of an expired one, in order, and hands back the tokens of all others, in
/// order.
pub proof fn pruning_keeps_the_living(
    entries: Seq<Registration>,
    states: Seq<Option<i32>>,
    entry: Registration,
    state: Option<i32>,
)
    requires
        entries.len() == states.len(),
    ensures
        kept(Seq::<Registration>::empty(), states).len() == 0,
        removed(Seq::<Registration>::empty(), states).len() == 0,
        state is Some && state != Some(2i32) ==> {
            &&& kept(entries.push(entry), states.push(state)) == kept(entries, states).push(entry)
            &&& removed(entries.push(entry), states.push(state)) == removed(entries, states)
        },
        state is None || state == Some(2i32) ==> {
            &&& kept(entries.push(entry), states.push(state)) == kept(entries, states)
            &&& removed(entries.push(entry), states.push(state)) == removed(entries, states).push(
                entry.token,
            )
        },
{
    assert(entries.push(entry).drop_last() =~= entries);
    later_states_do_not_matter(entries, states, states.push(state));
}

/// A session is known exactly where a registration is for it, and the tokens are
/// those of the registrations, in order.
pub proof fn registrations_are_known(entries: Seq<Registration>, key: SessionKey)
    ensures
        known(entries, key) <==> exists|i: int|
            0 <= i < entries.len() && one_session((#[trigger] entries[i]).key, key),
        tokens(entries).len() == entries.len(),
        forall|i: int| 0 <= i < entries.len() ==> #[trigger] tokens(entries)[i] == entries[i].token,
{
}

} // verus!
