//! The registry of automation ports: one port for each device, chosen once
//! and kept for as long as the registry lives.
//!
//! Whether a port can be bound is for the caller to find out. The registry
//! names the port to try next and records the port that turned out free.

use crate::text::owned;
use vstd::prelude::*;

verus! {

/// The port at which every search begins.
pub const BASE_PORT: u16 = 8557;

/// What to do next in order to learn a device's port.
#[derive(Clone, Copy, Debug, PartialEq, Eq, Structural)]
pub enum PortStep {
    /// The device has this port.
    Known(u16),
    /// Find out whether this port can be bound, and report it with
    /// [`PortManager::probed`].
    Probe(u16),
    /// No port is left to try.
    Exhausted,
}

struct PortAssignment {
    device: String,
    port: u16,
}

/// The ports given out so far.
pub struct PortManager {
    entries: Vec<PortAssignment>,
}

/// The port recorded for `device` in a list of assignments.
pub open spec fn port_of(assignments: Seq<(Seq<char>, u16)>, device: Seq<char>) -> Option<u16>
    decreases assignments.len(),
{
    if assignments.len() == 0 {
        None
    } else if assignments.last().0 == device {
        Some(assignments.last().1)
    } else {
        port_of(assignments.drop_last(), device)
    }
}

/// Some device in the list has `port`.
pub open spec fn is_taken(assignments: Seq<(Seq<char>, u16)>, port: u16) -> bool {
    exists|i: int| 0 <= i < assignments.len() && (#[trigger] assignments[i]).1 == port
}

/// No device and no port occurs twice, and no port lies below the base.
pub open spec fn consistent(assignments: Seq<(Seq<char>, u16)>) -> bool {
    &&& forall|i: int, j: int|
        0 <= i < j < assignments.len() ==> (#[trigger] assignments[i]).0 != (
        #[trigger] assignments[j]).0
    &&& forall|i: int, j: int|
        0 <= i < j < assignments.len() ==> (#[trigger] assignments[i]).1 != (
        #[trigger] assignments[j]).1
    &&& forall|i: int| 0 <= i < assignments.len() ==> (#[trigger] assignments[i]).1 >= BASE_PORT
}

/// `port` is the lowest port from `from` upwards that no device has.
pub open spec fn is_lowest_free(assignments: Seq<(Seq<char>, u16)>, from: int, port: u16) -> bool {
    &&& from <= port
    &&& !is_taken(assignments, port)
    &&& forall|q: u16| from <= q < port ==> is_taken(assignments, q)
}

/// Every port from `from` upwards belongs to some device.
pub open spec fn none_free(assignments: Seq<(Seq<char>, u16)>, from: int) -> bool {
    forall|q: u16| from <= q ==> is_taken(assignments, q)
}

/// Where a search goes on after `port`: at the port above it, and not below
/// the base.
pub open spec fn resume_from(port: u16) -> int {
    if port < BASE_PORT {
        BASE_PORT as int
    } else {
        port + 1
    }
}

/// The step that a search for a free port from `from` upwards comes to:
/// the lowest port that no device has is to be tried, if there is one.
pub open spec fn lowest_free(assignments: Seq<(Seq<char>, u16)>, from: int) -> PortStep
    decreases 65536 - from,
{
    if from < 0 || from > 65535 {
        PortStep::Exhausted
    } else if !is_taken(assignments, from as u16) {
        PortStep::Probe(from as u16)
    } else {
        lowest_free(assignments, from + 1)
    }
}

/// How to come by the port of `device`: it is known, or a search from the
/// base upwards says what to try.
pub open spec fn port_step(assignments: Seq<(Seq<char>, u16)>, device: Seq<char>) -> PortStep {
    match port_of(assignments, device) {
        Some(port) => PortStep::Known(port),
        None => lowest_free(assignments, BASE_PORT as int),
    }
}

/// The assignments and the next step after `port` was tried for `device`.
///
/// A device that has a port keeps it. Otherwise a port that turned out free,
/// lies at or above the base and belongs to no device becomes the device's
/// port; after any other port the search goes on above it.
pub open spec fn after_probe(
    assignments: Seq<(Seq<char>, u16)>,
    device: Seq<char>,
    port: u16,
    available: bool,
) -> (Seq<(Seq<char>, u16)>, PortStep) {
    match port_of(assignments, device) {
        Some(known) => (assignments, PortStep::Known(known)),
        None => if available && port >= BASE_PORT && !is_taken(assignments, port) {
            (assignments.push((device, port)), PortStep::Known(port))
        } else {
            (assignments, lowest_free(assignments, resume_from(port)))
        },
    }
}

/// `port` is the lowest port from `from` upwards that no device has and that
/// is not listed in `bound`.
pub open spec fn is_lowest_unused(
    assignments: Seq<(Seq<char>, u16)>,
    bound: Seq<u16>,
    from: int,
    port: u16,
) -> bool {
    &&& from <= port
    &&& !is_taken(assignments, port)
    &&& !bound.contains(port)
    &&& forall|q: u16| from <= q < port ==> is_taken(assignments, q) || bound.contains(q)
}

/// Every port from `from` upwards belongs to some device or is listed in
/// `bound`.
pub open spec fn none_unused(
    assignments: Seq<(Seq<char>, u16)>,
    bound: Seq<u16>,
    from: int,
) -> bool {
    forall|q: u16| from <= q ==> is_taken(assignments, q) || bound.contains(q)
}

/// The lowest port from `from` upwards that no device has and that is not
/// listed in `bound`, if there is one.
pub open spec fn lowest_unused(
    assignments: Seq<(Seq<char>, u16)>,
    bound: Seq<u16>,
    from: int,
) -> Option<u16>
    decreases 65536 - from,
{
    if from < 0 || from > 65535 {
        None
    } else if !is_taken(assignments, from as u16) && !bound.contains(from as u16) {
        Some(from as u16)
    } else {
        lowest_unused(assignments, bound, from + 1)
    }
}

/// The assignments and the port after a device asked for its port while the
/// ports in `bound` were bound by someone else.
///
/// A device that has a port keeps it. A new device gets the lowest port from
/// the base upwards that no device has and that is not bound, and none where
/// no such port exists.
pub open spec fn after_request(
    assignments: Seq<(Seq<char>, u16)>,
    bound: Seq<u16>,
    device: Seq<char>,
) -> (Seq<(Seq<char>, u16)>, Option<u16>) {
    match port_of(assignments, device) {
        Some(known) => (assignments, Some(known)),
        None => match lowest_unused(assignments, bound, BASE_PORT as int) {
            Some(port) => (assignments.push((device, port)), Some(port)),
            None => (assignments, None),
        },
    }
}

impl View for PortManager {
    type V = Seq<(Seq<char>, u16)>;

    /// The assignments, oldest first.
    closed spec fn view(&self) -> Seq<(Seq<char>, u16)> {
        Seq::new(
            self.entries.len() as nat,
            |i: int| (self.entries[i].device@, self.entries[i].port),
        )
    }
}

impl PortManager {
    /// What holds of every registry: no device and no port occurs twice, and
    /// no port lies below the base.
    #[verifier::type_invariant]
    pub open spec fn well_formed(self) -> bool {
        consistent(self@)
    }

    /// An empty registry.
    pub fn new() -> (r: Self)
        ensures
            r@ == Seq::<(Seq<char>, u16)>::empty(),
    {
        let r = PortManager { entries: Vec::new() };
        assert(r@ =~= Seq::<(Seq<char>, u16)>::empty());
        r
    }

    /// The port recorded for a device, if one is.
    pub fn lookup(&self, udid: &str) -> (r: Option<u16>)
        ensures
            r == port_of(self@, udid@),
    {
        let wanted = owned(udid);
        let mut i: usize = self.entries.len();
        assert(self@.take(i as int) =~= self@);
        while i > 0
            invariant
                i <= self.entries.len(),
                wanted@ == udid@,
                port_of(self@, udid@) == port_of(self@.take(i as int), udid@),
            decreases i,
        {
            i -= 1;
            assert(self@.take(i + 1).drop_last() =~= self@.take(i as int));
            if self.entries[i].device == wanted {
                return Some(self.entries[i].port);
            }
        }
        None
    }

    /// Whether some device has the port.
    pub fn holds_port(&self, port: u16) -> (r: bool)
        ensures
            r == is_taken(self@, port),
    {
        let mut i: usize = 0;
        while i < self.entries.len()
            invariant
                i <= self.entries.len(),
                forall|j: int| 0 <= j < i ==> (#[trigger] self@[j]).1 != port,
            decreases self.entries.len() - i,
        {
            if self.entries[i].port == port {
                assert(self@[i as int].1 == port);
                return true;
            }
            i += 1;
        }
        false
    }

    /// The lowest port from `from` upwards that no device has.
    fn search(&self, from: u32) -> (r: PortStep)
        requires
            from <= 65536,
        ensures
            r == lowest_free(self@, from as int),
    {
        let mut candidate: u32 = from;
        while candidate <= 65535
            invariant
                from <= candidate <= 65536,
                lowest_free(self@, from as int) == lowest_free(self@, candidate as int),
            decreases 65536 - candidate,
        {
            let port = candidate as u16;
            if !self.holds_port(port) {
                return PortStep::Probe(port);
            }
            candidate += 1;
        }
        PortStep::Exhausted
    }

    /// Says how to come by the port of a device: it is known, or the lowest
    /// port that no device has is to be tried, or there is none to try.
    pub fn get_port(&self, udid: &str) -> (r: PortStep)
        ensures
            r == port_step(self@, udid@),
    {
        match self.lookup(udid) {
            Some(port) => PortStep::Known(port),
            None => self.search(BASE_PORT as u32),
        }
    }

    /// Takes in what trying `port` for a device gave.
    ///
    /// A device that has a port keeps it. Otherwise a port that turned out
    /// free, lies at or above the base and belongs to no device becomes the
    /// device's port; after any other port the search goes on above it.
    pub fn probed(&mut self, udid: &str, port: u16, available: bool) -> (r: PortStep)
        ensures
            consistent(final(self)@),
            (final(self)@, r) == after_probe(old(self)@, udid@, port, available),
    {
        proof {
            use_type_invariant(&*self);
        }
        match self.lookup(udid) {
            Some(known) => PortStep::Known(known),
            None => {
                if available && port >= BASE_PORT && !self.holds_port(port) {
                    proof {
                        lemma_unknown_device(self@, udid@);
                    }
                    let mut taken = PortManager::new();
                    core::mem::swap(self, &mut taken);
                    let mut entries = taken.entries;
                    entries.push(PortAssignment { device: owned(udid), port });
                    assert(Seq::new(
                        entries.len() as nat,
                        |i: int| (entries[i].device@, entries[i].port),
                    ) =~= old(self)@.push((udid@, port)));
                    self.entries = entries;
                    PortStep::Known(port)
                } else if port < BASE_PORT {
                    self.search(BASE_PORT as u32)
                } else {
                    self.search(port as u32 + 1)
                }
            },
        }
    }

    /// Gives a device its port, given the ports that someone else has bound.
    ///
    /// The port is found by walking the steps of [`PortManager::get_port`]
    /// and [`PortManager::probed`], a port counting as free when it is not
    /// listed in `bound`.
    pub fn get_or_create_port(&mut self, udid: &str, bound: &Vec<u16>) -> (r: Option<u16>)
        ensures
            consistent(final(self)@),
            (final(self)@, r) == after_request(old(self)@, bound@, udid@),
    {
        let ghost start = self@;
        let mut step = self.get_port(udid);
        proof {
            use_type_invariant(&*self);
            lemma_lowest_free(start, BASE_PORT as int);
            match step {
                PortStep::Known(_) => {},
                PortStep::Probe(port) => {
                    lemma_skip_taken(start, bound@, BASE_PORT as int, port as int);
                },
                PortStep::Exhausted => {
                    lemma_skip_taken(start, bound@, BASE_PORT as int, 65536);
                },
            }
        }
        loop
            invariant
                start == old(self)@,
                consistent(self@),
                match step {
                    PortStep::Known(port) => (self@, Some(port)) == after_request(
                        start,
                        bound@,
                        udid@,
                    ),
                    PortStep::Probe(port) => {
                        &&& port_of(start, udid@) is None
                        &&& self@ == start
                        &&& BASE_PORT <= port
                        &&& !is_taken(start, port)
                        &&& lowest_unused(start, bound@, BASE_PORT as int) == lowest_unused(
                            start,
                            bound@,
                            port as int,
                        )
                    },
                    PortStep::Exhausted => (self@, None::<u16>) == after_request(
                        start,
                        bound@,
                        udid@,
                    ),
                },
            decreases
                    match step {
                        PortStep::Probe(port) => 65536 - port,
                        _ => 0,
                    },
        {
            match step {
                PortStep::Known(port) => {
                    return Some(port);
                },
                PortStep::Exhausted => {
                    return None;
                },
                PortStep::Probe(port) => {
                    let available = !listed(bound, port);
                    proof {
                        lemma_lowest_free(start, port + 1);
                        if let PortStep::Probe(next) = lowest_free(start, port + 1) {
                            lemma_skip_taken(start, bound@, port + 1, next as int);
                        } else {
                            lemma_skip_taken(start, bound@, port + 1, 65536);
                        }
                    }
                    step = self.probed(udid, port, available);
                },
            }
        }
    }
}

/// Whether a port occurs in a list.
pub fn listed(ports: &Vec<u16>, port: u16) -> (r: bool)
    ensures
        r == ports@.contains(port),
{
    let mut i: usize = 0;
    while i < ports.len()
        invariant
            i <= ports.len(),
            forall|j: int| 0 <= j < i ==> ports@[j] != port,
        decreases ports.len() - i,
    {
        if ports[i] == port {
            return true;
        }
        i += 1;
    }
    false
}

/// Says how to come by the port of a device in the given registry.
pub fn get_port(manager: &PortManager, udid: &str) -> (r: PortStep)
    ensures
        r == port_step(manager@, udid@),
{
    manager.get_port(udid)
}

/// A search step never reports a known port. It names the lowest port from
/// `from` upwards that no device has, or says that every such port belongs
/// to some device.
pub proof fn lemma_lowest_free(assignments: Seq<(Seq<char>, u16)>, from: int)
    requires
        0 <= from,
    ensures
        match lowest_free(assignments, from) {
            PortStep::Known(_) => false,
            PortStep::Probe(port) => is_lowest_free(assignments, from, port),
            PortStep::Exhausted => none_free(assignments, from),
        },
    decreases 65536 - from,
{
    if from <= 65535 && is_taken(assignments, from as u16) {
        lemma_lowest_free(assignments, from + 1);
    }
}

/// Ports that devices have do not count in the search for an unused port:
/// where every port from `from` up to `to` belongs to some device, the
/// search from `from` finds what the search from `to` finds.
pub proof fn lemma_skip_taken(
    assignments: Seq<(Seq<char>, u16)>,
    bound: Seq<u16>,
    from: int,
    to: int,
)
    requires
        0 <= from <= to <= 65536,
        forall|q: u16| from <= q < to ==> is_taken(assignments, q),
    ensures
        lowest_unused(assignments, bound, from) == lowest_unused(assignments, bound, to),
    decreases to - from,
{
    if from < to {
        assert(is_taken(assignments, from as u16));
        lemma_skip_taken(assignments, bound, from + 1, to);
    }
}

/// What the search for an unused port finds is the lowest port from `from`
/// upwards that no device has and that is not bound; it finds none only
/// where every such port is taken or bound.
pub proof fn lemma_lowest_unused(assignments: Seq<(Seq<char>, u16)>, bound: Seq<u16>, from: int)
    requires
        0 <= from,
    ensures
        match lowest_unused(assignments, bound, from) {
            Some(port) => is_lowest_unused(assignments, bound, from, port),
            None => none_unused(assignments, bound, from),
        },
    decreases 65536 - from,
{
    if from <= 65535 && (is_taken(assignments, from as u16) || bound.contains(from as u16)) {
        lemma_lowest_unused(assignments, bound, from + 1);
    }
}

/// A device without a recorded port occurs in no assignment.
pub proof fn lemma_unknown_device(assignments: Seq<(Seq<char>, u16)>, device: Seq<char>)
    requires
        port_of(assignments, device) is None,
    ensures
        forall|i: int| 0 <= i < assignments.len() ==> (#[trigger] assignments[i]).0 != device,
    decreases assignments.len(),
{
    if assignments.len() > 0 {
        lemma_unknown_device(assignments.drop_last(), device);
        assert forall|i: int| 0 <= i < assignments.len() implies (#[trigger] assignments[i]).0
            != device by {
            if i < assignments.len() - 1 {
                assert(assignments.drop_last()[i] == assignments[i]);
            }
        }
    }
}

/// A recorded port belongs to an assignment of that device.
pub proof fn lemma_port_of_is_recorded(assignments: Seq<(Seq<char>, u16)>, device: Seq<char>)
    requires
        port_of(assignments, device) is Some,
    ensures
        exists|i: int|
            0 <= i < assignments.len() && #[trigger] assignments[i] == (
                device,
                port_of(assignments, device)->0,
            ),
    decreases assignments.len(),
{
    if assignments.last().0 == device {
        assert(assignments[assignments.len() - 1] == (device, port_of(assignments, device)->0));
    } else {
        lemma_port_of_is_recorded(assignments.drop_last(), device);
        let i = choose|i: int|
            0 <= i < assignments.drop_last().len() && #[trigger] assignments.drop_last()[i] == (
                device,
                port_of(assignments, device)->0,
            );
        assert(assignments[i] == assignments.drop_last()[i]);
    }
}

/// Taking in what trying a port gave keeps the registry consistent, and
/// takes no port away from a device that has one.
pub proof fn lemma_probe_keeps_ports(
    assignments: Seq<(Seq<char>, u16)>,
    device: Seq<char>,
    port: u16,
    available: bool,
    other: Seq<char>,
)
    requires
        consistent(assignments),
    ensures
        consistent(after_probe(assignments, device, port, available).0),
        port_of(assignments, other) is Some ==> port_of(
            after_probe(assignments, device, port, available).0,
            other,
        ) == port_of(assignments, other),
{
    if port_of(assignments, device) is None {
        lemma_unknown_device(assignments, device);
        lemma_assignment_is_stable(assignments, device, port, other);
    }
}

/// Giving a device its port keeps the registry consistent.
pub proof fn lemma_request_keeps_consistency(
    assignments: Seq<(Seq<char>, u16)>,
    bound: Seq<u16>,
    device: Seq<char>,
)
    requires
        consistent(assignments),
    ensures
        consistent(after_request(assignments, bound, device).0),
{
    if port_of(assignments, device) is None {
        lemma_unknown_device(assignments, device);
        lemma_lowest_unused(assignments, bound, BASE_PORT as int);
    }
}

/// A device that asks again is given the port it was given before, whatever
/// has been bound in the meantime, and the registry stays as it is.
pub proof fn lemma_same_device_same_port(
    assignments: Seq<(Seq<char>, u16)>,
    bound: Seq<u16>,
    bound_later: Seq<u16>,
    device: Seq<char>,
)
    requires
        after_request(assignments, bound, device).1 is Some,
    ensures
        after_request(after_request(assignments, bound, device).0, bound_later, device)
            == after_request(assignments, bound, device),
{
    if port_of(assignments, device) is None {
        let port = lowest_unused(assignments, bound, BASE_PORT as int)->0;
        lemma_assignment_is_stable(assignments, device, port, device);
    }
}

/// Two different devices that ask one after the other are given different
/// ports.
pub proof fn lemma_different_devices_different_ports(
    assignments: Seq<(Seq<char>, u16)>,
    bound: Seq<u16>,
    bound_later: Seq<u16>,
    first: Seq<char>,
    second: Seq<char>,
)
    requires
        consistent(assignments),
        first != second,
        after_request(assignments, bound, first).1 is Some,
        after_request(after_request(assignments, bound, first).0, bound_later, second).1 is Some,
    ensures
        after_request(assignments, bound, first).1 != after_request(
            after_request(assignments, bound, first).0,
            bound_later,
            second,
        ).1,
{
    let between = after_request(assignments, bound, first).0;
    let last = after_request(between, bound_later, second).0;
    lemma_request_keeps_consistency(assignments, bound, first);
    lemma_request_keeps_consistency(between, bound_later, second);
    lemma_same_device_same_port(assignments, bound, bound_later, first);
    lemma_same_device_same_port(between, bound_later, bound_later, second);
    if port_of(between, second) is None {
        let port = lowest_unused(between, bound_later, BASE_PORT as int)->0;
        lemma_assignment_is_stable(between, second, port, first);
    }
    lemma_distinct_devices_distinct_ports(last, first, second);
}

/// In a consistent registry, two different devices never have the same
/// port.
pub proof fn lemma_distinct_devices_distinct_ports(
    assignments: Seq<(Seq<char>, u16)>,
    first: Seq<char>,
    second: Seq<char>,
)
    requires
        consistent(assignments),
        first != second,
        port_of(assignments, first) is Some,
        port_of(assignments, second) is Some,
    ensures
        port_of(assignments, first) != port_of(assignments, second),
{
    lemma_port_of_is_recorded(assignments, first);
    lemma_port_of_is_recorded(assignments, second);
    let i = choose|i: int|
        0 <= i < assignments.len() && #[trigger] assignments[i] == (
            first,
            port_of(assignments, first)->0,
        );
    let j = choose|j: int|
        0 <= j < assignments.len() && #[trigger] assignments[j] == (
            second,
            port_of(assignments, second)->0,
        );
    if i < j {
        assert(assignments[i].1 != assignments[j].1);
    } else {
        assert(assignments[j].1 != assignments[i].1);
    }
}

/// Recording a port for a device that had none changes no other device's
/// port, and asking again gives the recorded port.
pub proof fn lemma_assignment_is_stable(
    assignments: Seq<(Seq<char>, u16)>,
    device: Seq<char>,
    port: u16,
    other: Seq<char>,
)
    requires
        port_of(assignments, device) is None,
    ensures
        port_of(assignments.push((device, port)), device) == Some(port),
        port_of(assignments, other) is Some ==> port_of(assignments.push((device, port)), other)
            == port_of(assignments, other),
{
    let extended = assignments.push((device, port));
    assert(extended.drop_last() =~= assignments);
}

} // verus!
