//! The capability descriptor: which optional subsystems a build enables.

use vstd::prelude::*;

verus! {

/// An optional subsystem that a service can be built with.
#[derive(Clone, Copy, PartialEq, Eq, Debug, Structural)]
pub enum Capability {
    /// Export of telemetry events.
    Telemetry,
    /// The remote structured-log sink.
    Logging,
    /// The message-bus client.
    MessageBus,
    /// The read side of the cache connection.
    CacheReader,
    /// The write side of the cache connection.
    CacheWriter,
    /// The relational store.
    RelationalStore,
    /// The RPC listener and RPC clients.
    Rpc,
}

/// Number of capabilities that exist.
pub const CAPABILITY_COUNT: usize = 7;

/// All capabilities, in the canonical order in which the runtime visits them.
pub open spec fn all_capabilities() -> Seq<Capability> {
    seq![
        Capability::Telemetry,
        Capability::Logging,
        Capability::MessageBus,
        Capability::CacheReader,
        Capability::CacheWriter,
        Capability::RelationalStore,
        Capability::Rpc,
    ]
}

impl Capability {
    /// Position of the capability in the canonical order.
    pub open spec fn spec_index(self) -> int {
        match self {
            Capability::Telemetry => 0,
            Capability::Logging => 1,
            Capability::MessageBus => 2,
            Capability::CacheReader => 3,
            Capability::CacheWriter => 4,
            Capability::RelationalStore => 5,
            Capability::Rpc => 6,
        }
    }

    /// Position of the capability in the canonical order.
    pub fn index(self) -> (i: usize)
        ensures
            i == self.spec_index(),
            i < CAPABILITY_COUNT,
            all_capabilities()[i as int] == self,
    {
        match self {
            Capability::Telemetry => 0,
            Capability::Logging => 1,
            Capability::MessageBus => 2,
            Capability::CacheReader => 3,
            Capability::CacheWriter => 4,
            Capability::RelationalStore => 5,
            Capability::Rpc => 6,
        }
    }

    /// The capability at a position of the canonical order.
    pub fn from_index(i: usize) -> (c: Option<Capability>)
        ensures
            i < CAPABILITY_COUNT ==> c == Some(all_capabilities()[i as int]),
            i >= CAPABILITY_COUNT ==> c is None,
            c matches Some(cap) ==> cap.spec_index() == i,
    {
        match i {
            0 => Some(Capability::Telemetry),
            1 => Some(Capability::Logging),
            2 => Some(Capability::MessageBus),
            3 => Some(Capability::CacheReader),
            4 => Some(Capability::CacheWriter),
            5 => Some(Capability::RelationalStore),
            6 => Some(Capability::Rpc),
            _ => None,
        }
    }

    /// All capabilities in canonical order.
    pub fn all() -> (v: Vec<Capability>)
        ensures
            v@ == all_capabilities(),
    {
        let v = vec![
            Capability::Telemetry,
            Capability::Logging,
            Capability::MessageBus,
            Capability::CacheReader,
            Capability::CacheWriter,
            Capability::RelationalStore,
            Capability::Rpc,
        ];
        assert(v@ =~= all_capabilities());
        v
    }
}

/// The set of capabilities that a build enables. It is fixed when the
/// service is constructed and never changes afterwards.
#[derive(Clone, Copy, PartialEq, Eq, Debug, Structural)]
pub struct CapabilitySet {
    pub telemetry: bool,
    pub logging: bool,
    pub message_bus: bool,
    pub cache_reader: bool,
    pub cache_writer: bool,
    pub relational_store: bool,
    pub rpc: bool,
}

impl View for CapabilitySet {
    type V = Set<Capability>;

    open spec fn view(&self) -> Set<Capability> {
        Set::new(|c: Capability| self.has(c))
    }
}

/// The descriptor that enables exactly the capabilities of `enabled`.
pub open spec fn descriptor_of(enabled: Set<Capability>) -> CapabilitySet {
    CapabilitySet {
        telemetry: enabled.contains(Capability::Telemetry),
        logging: enabled.contains(Capability::Logging),
        message_bus: enabled.contains(Capability::MessageBus),
        cache_reader: enabled.contains(Capability::CacheReader),
        cache_writer: enabled.contains(Capability::CacheWriter),
        relational_store: enabled.contains(Capability::RelationalStore),
        rpc: enabled.contains(Capability::Rpc),
    }
}

/// A descriptor is determined by the set of capabilities that it enables.
pub proof fn lemma_descriptor_of_view(s: CapabilitySet)
    ensures
        descriptor_of(s@) == s,
        descriptor_of(s@)@ == s@,
{
    assert(s@.contains(Capability::Telemetry) == s.has(Capability::Telemetry));
    assert(s@.contains(Capability::Logging) == s.has(Capability::Logging));
    assert(s@.contains(Capability::MessageBus) == s.has(Capability::MessageBus));
    assert(s@.contains(Capability::CacheReader) == s.has(Capability::CacheReader));
    assert(s@.contains(Capability::CacheWriter) == s.has(Capability::CacheWriter));
    assert(s@.contains(Capability::RelationalStore) == s.has(Capability::RelationalStore));
    assert(s@.contains(Capability::Rpc) == s.has(Capability::Rpc));
}

impl CapabilitySet {
    /// Whether the descriptor enables `c`.
    pub open spec fn has(self, c: Capability) -> bool {
        match c {
            Capability::Telemetry => self.telemetry,
            Capability::Logging => self.logging,
            Capability::MessageBus => self.message_bus,
            Capability::CacheReader => self.cache_reader,
            Capability::CacheWriter => self.cache_writer,
            Capability::RelationalStore => self.relational_store,
            Capability::Rpc => self.rpc,
        }
    }

    /// The descriptor that enables nothing.
    pub fn empty() -> (s: CapabilitySet)
        ensures
            s@ == Set::<Capability>::empty(),
            forall|c: Capability| !s.has(c),
    {
        let s = CapabilitySet {
            telemetry: false,
            logging: false,
            message_bus: false,
            cache_reader: false,
            cache_writer: false,
            relational_store: false,
            rpc: false,
        };
        assert(s@ =~= Set::<Capability>::empty());
        s
    }

    /// Whether `c` is enabled.
    pub fn contains(&self, c: Capability) -> (b: bool)
        ensures
            b == self.has(c),
            b == self@.contains(c),
    {
        match c {
            Capability::Telemetry => self.telemetry,
            Capability::Logging => self.logging,
            Capability::MessageBus => self.message_bus,
            Capability::CacheReader => self.cache_reader,
            Capability::CacheWriter => self.cache_writer,
            Capability::RelationalStore => self.relational_store,
            Capability::Rpc => self.rpc,
        }
    }

    /// The descriptor with `c` enabled in addition. Enabling a capability
    /// twice is the same as enabling it once.
    pub fn with(self, c: Capability) -> (s: CapabilitySet)
        ensures
            s@ == self@.insert(c),
            forall|d: Capability| s.has(d) == (d == c || self.has(d)),
    {
        let mut s = self;
        match c {
            Capability::Telemetry => { s.telemetry = true; },
            Capability::Logging => { s.logging = true; },
            Capability::MessageBus => { s.message_bus = true; },
            Capability::CacheReader => { s.cache_reader = true; },
            Capability::CacheWriter => { s.cache_writer = true; },
            Capability::RelationalStore => { s.relational_store = true; },
            Capability::Rpc => { s.rpc = true; },
        }
        assert(s@ =~= self@.insert(c));
        s
    }

    /// The descriptor that enables exactly the capabilities listed, in
    /// whatever order and however often they are listed.
    pub fn from_list(enabled: &Vec<Capability>) -> (s: CapabilitySet)
        ensures
            s@ == enabled@.to_set(),
            s == descriptor_of(enabled@.to_set()),
            forall|c: Capability| s.has(c) == enabled@.contains(c),
    {
        let mut s = CapabilitySet::empty();
        let mut i: usize = 0;
        while i < enabled.len()
            invariant
                i <= enabled.len(),
                forall|c: Capability| s.has(c) == enabled@.take(i as int).contains(c),
            decreases enabled.len() - i,
        {
            let ghost before = s;
            s = s.with(enabled[i]);
            proof {
                let prefix = enabled@.take(i as int);
                let next = enabled@.take(i + 1);
                assert(next =~= prefix.push(enabled@[i as int]));
                assert forall|c: Capability| s.has(c) == next.contains(c) by {
                    if prefix.contains(c) {
                        let k = choose|k: int| 0 <= k < prefix.len() && prefix[k] == c;
                        assert(next[k] == c);
                    }
                    if c == enabled@[i as int] {
                        assert(next[i as int] == c);
                    }
                }
            }
            i += 1;
        }
        proof {
            assert(enabled@.take(i as int) =~= enabled@);
            assert(s@ =~= enabled@.to_set());
            lemma_descriptor_of_view(s);
        }
        s
    }
}

} // verus!
