//! Synthesis of the settings contract from the enabled capabilities.

use crate::capability::{all_capabilities, Capability, CapabilitySet, CAPABILITY_COUNT};
use crate::settings::catalogue::{
    is_declared, lemma_declared_methods_agree, universal_traits, SettingsMethod, SettingsTrait,
};
use vstd::prelude::*;

verus! {

/// Two requirements that claim the same name of the same interface and mean
/// different things by it.
#[derive(Clone, Copy, PartialEq, Eq, Debug, Structural)]
pub struct ContractConflict {
    /// The requirement that the contract already held.
    pub existing: SettingsMethod,
    /// The requirement that could not be added.
    pub requested: SettingsMethod,
}

/// The methods that a settings provider has to implement, each once, in the
/// order in which they were first required.
pub struct SettingsContract {
    methods: Vec<SettingsMethod>,
}

/// Whether no two entries of `methods` claim the same name of the same
/// interface.
pub open spec fn slots_distinct(methods: Seq<SettingsMethod>) -> bool {
    forall|i: int, j: int|
        0 <= i < j < methods.len() ==> !(#[trigger] methods[i]).same_slot(#[trigger] methods[j])
}

/// Whether `methods` has an entry in the slot of `m`.
pub open spec fn slot_taken(methods: Seq<SettingsMethod>, m: SettingsMethod) -> bool {
    exists|i: int| 0 <= i < methods.len() && (#[trigger] methods[i]).same_slot(m)
}

/// An entry of `methods` in the slot of `m`, where there is one.
pub open spec fn slot_holder(methods: Seq<SettingsMethod>, m: SettingsMethod) -> SettingsMethod {
    let i = choose|i: int| 0 <= i < methods.len() && (#[trigger] methods[i]).same_slot(m);
    methods[i]
}

/// What requiring `m` makes of `methods`: nothing new if `m` is already
/// required, a conflict if its slot is taken by a method that means
/// something else, and `m` appended otherwise.
pub open spec fn require_spec(methods: Seq<SettingsMethod>, m: SettingsMethod) -> Result<
    Seq<SettingsMethod>,
    ContractConflict,
> {
    if slot_taken(methods, m) {
        let held = slot_holder(methods, m);
        if held == m {
            Ok(methods)
        } else {
            Err(ContractConflict { existing: held, requested: m })
        }
    } else {
        Ok(methods.push(m))
    }
}

/// What requiring the first `n` of `requested`, one after the other, makes
/// of `methods`; the first conflict ends it.
pub open spec fn require_all_spec(
    methods: Seq<SettingsMethod>,
    requested: Seq<SettingsMethod>,
    n: nat,
) -> Result<Seq<SettingsMethod>, ContractConflict>
    decreases n,
{
    if n == 0 {
        Ok(methods)
    } else {
        match require_all_spec(methods, requested, (n - 1) as nat) {
            Ok(sofar) => require_spec(sofar, requested[n - 1]),
            Err(conflict) => Err(conflict),
        }
    }
}

/// `methods` with the declared methods of `t` required in addition.
pub open spec fn with_trait(methods: Seq<SettingsMethod>, t: SettingsTrait) -> Seq<SettingsMethod> {
    match require_all_spec(methods, t.spec_methods(), t.spec_methods().len()) {
        Ok(all) => all,
        Err(_) => methods,
    }
}

/// The contract of the universal interfaces alone.
pub open spec fn universal_contract() -> Seq<SettingsMethod> {
    with_trait(
        with_trait(
            with_trait(Seq::empty(), SettingsTrait::ServiceInfo),
            SettingsTrait::MyTelemetrySettings,
        ),
        SettingsTrait::SeqSettings,
    )
}

/// The contract of the universal interfaces and of those enabled
/// capabilities that stand among the first `n` of the canonical order.
pub open spec fn contract_upto(enabled: CapabilitySet, n: nat) -> Seq<SettingsMethod>
    decreases n,
{
    if n == 0 {
        universal_contract()
    } else {
        let sofar = contract_upto(enabled, (n - 1) as nat);
        let c = all_capabilities()[n - 1];
        if enabled.has(c) {
            with_trait(sofar, c.spec_settings_trait())
        } else {
            sofar
        }
    }
}

/// The sequence of methods that the contract of `enabled` lists.
pub open spec fn contract_methods(enabled: CapabilitySet) -> Seq<SettingsMethod> {
    contract_upto(enabled, CAPABILITY_COUNT as nat)
}

/// Whether the contract of `enabled` asks for the interface `t`.
pub open spec fn trait_required(enabled: Set<Capability>, t: SettingsTrait) -> bool {
    t.spec_is_universal() || exists|c: Capability|
        enabled.contains(c) && #[trigger] c.spec_settings_trait() == t
}

/// The methods that a provider has to implement when `enabled` is what the
/// build enables: the declared methods of the universal interfaces and of
/// the interface of every enabled capability, and no other.
pub open spec fn required_methods(enabled: Set<Capability>) -> Set<SettingsMethod> {
    Set::new(|m: SettingsMethod| is_declared(m) && trait_required(enabled, m.owner))
}

impl View for SettingsContract {
    type V = Set<SettingsMethod>;

    closed spec fn view(&self) -> Set<SettingsMethod> {
        self.methods@.to_set()
    }
}

impl SettingsContract {
    /// The required methods in the order in which they were first required.
    pub closed spec fn listed(&self) -> Seq<SettingsMethod> {
        self.methods@
    }

    /// A contract lists no slot twice.
    pub closed spec fn wf(&self) -> bool {
        slots_distinct(self.methods@)
    }

    /// The view of a contract is the set of what it lists, and a contract
    /// that lists no slot twice lists no method twice.
    pub proof fn lemma_view(&self)
        ensures
            self@ == self.listed().to_set(),
            self.wf() == slots_distinct(self.listed()),
            self.wf() ==> self.listed().no_duplicates(),
            self@.finite(),
    {
        if self.wf() {
            assert forall|i: int, j: int|
                0 <= i < self.methods@.len() && 0 <= j < self.methods@.len() && i != j implies self.methods@[i]
                != self.methods@[j] by {
                if i < j {
                    assert(!self.methods@[i].same_slot(self.methods@[j]));
                } else {
                    assert(!self.methods@[j].same_slot(self.methods@[i]));
                }
            }
        }
        vstd::seq_lib::seq_to_set_is_finite(self.methods@);
    }

    /// The contract that requires nothing.
    pub fn new() -> (contract: SettingsContract)
        ensures
            contract.wf(),
            contract.listed() == Seq::<SettingsMethod>::empty(),
            contract@ == Set::<SettingsMethod>::empty(),
    {
        let contract = SettingsContract { methods: Vec::new() };
        assert(contract@ =~= Set::<SettingsMethod>::empty());
        contract
    }

    /// Number of methods that the contract requires.
    pub fn len(&self) -> (n: usize)
        ensures
            n == self.listed().len(),
    {
        self.methods.len()
    }

    /// The `i`-th required method.
    pub fn get(&self, i: usize) -> (m: Option<SettingsMethod>)
        ensures
            i < self.listed().len() ==> m == Some(self.listed()[i as int]),
            i >= self.listed().len() ==> m is None,
    {
        if i < self.methods.len() {
            Some(self.methods[i])
        } else {
            None
        }
    }

    /// The required methods in the order in which they were first required.
    pub fn methods(&self) -> (v: Vec<SettingsMethod>)
        ensures
            v@ == self.listed(),
    {
        let mut v: Vec<SettingsMethod> = Vec::new();
        let mut i: usize = 0;
        while i < self.methods.len()
            invariant
                i <= self.methods.len(),
                v@ == self.methods@.take(i as int),
            decreases self.methods.len() - i,
        {
            v.push(self.methods[i]);
            assert(self.methods@.take(i + 1) =~= self.methods@.take(i as int).push(
                self.methods@[i as int],
            ));
            i += 1;
        }
        assert(self.methods@.take(i as int) =~= self.methods@);
        v
    }

    /// Whether the contract requires exactly this method.
    pub fn requires_method(&self, m: &SettingsMethod) -> (b: bool)
        ensures
            b == self@.contains(*m),
            b == self.listed().contains(*m),
    {
        let mut i: usize = 0;
        while i < self.methods.len()
            invariant
                i <= self.methods.len(),
                forall|k: int| 0 <= k < i ==> self.methods@[k] != *m,
            decreases self.methods.len() - i,
        {
            if self.methods[i] == *m {
                return true;
            }
            i += 1;
        }
        false
    }

    /// Whether the contract requires a method of the interface `t`.
    pub fn requires_trait(&self, t: SettingsTrait) -> (b: bool)
        ensures
            b == exists|m: SettingsMethod| self@.contains(m) && m.owner == t,
    {
        let mut i: usize = 0;
        while i < self.methods.len()
            invariant
                i <= self.methods.len(),
                forall|k: int| 0 <= k < i ==> self.methods@[k].owner != t,
            decreases self.methods.len() - i,
        {
            if self.methods[i].owner == t {
                assert(self@.contains(self.methods@[i as int]));
                return true;
            }
            i += 1;
        }
        assert forall|m: SettingsMethod| self@.contains(m) implies m.owner != t by {
            let k = choose|k: int| 0 <= k < self.methods@.len() && self.methods@[k] == m;
        }
        false
    }

    /// Requires `m`. A method that is already required is not listed again.
    /// Where the slot of `m` is taken by a method that means something
    /// else, the contract stays as it is and the two are reported.
    pub fn require(&mut self, m: SettingsMethod) -> (r: Result<(), ContractConflict>)
        requires
            old(self).wf(),
        ensures
            final(self).wf(),
            match require_spec(old(self).listed(), m) {
                Ok(listed) => r is Ok && final(self).listed() == listed,
                Err(conflict) => r == Err::<(), ContractConflict>(conflict) && final(self).listed()
                    == old(self).listed(),
            },
            r is Ok ==> final(self)@ == old(self)@.insert(m),
            r is Err ==> final(self)@ == old(self)@,
            r is Err <==> exists|e: SettingsMethod|
                old(self)@.contains(e) && #[trigger] e.spec_collides_with(m),
            r matches Err(c) ==> old(self)@.contains(c.existing) && c.requested == m
                && c.existing.spec_collides_with(m),
    {
        let ghost before = self.methods@;
        let mut i: usize = 0;
        while i < self.methods.len()
            invariant
                i <= self.methods.len(),
                self.methods@ == before,
                slots_distinct(before),
                forall|k: int| 0 <= k < i ==> !(#[trigger] before[k]).same_slot(m),
            decreases self.methods.len() - i,
        {
            let held = self.methods[i];
            if held.is_same_slot(&m) {
                proof {
                    assert(before[i as int].same_slot(m));
                    let j = choose|j: int| 0 <= j < before.len() && (#[trigger] before[j]).same_slot(m);
                    if j != i as int {
                        if j < i {
                            assert(!before[j].same_slot(before[i as int]));
                        } else {
                            assert(!before[i as int].same_slot(before[j]));
                        }
                    }
                    assert(slot_holder(before, m) == held);
                    assert(before.to_set().contains(held));
                }
                if held.field == m.field {
                    proof {
                        assert(held == m);
                        assert(before.to_set().insert(m) =~= before.to_set());
                        assert forall|e: SettingsMethod|
                            before.to_set().contains(e) implies !#[trigger] e.spec_collides_with(m) by {
                            let k = choose|k: int| 0 <= k < before.len() && before[k] == e;
                            if e.same_slot(m) && k != i as int {
                                if k < i {
                                    assert(!before[k].same_slot(before[i as int]));
                                } else {
                                    assert(!before[i as int].same_slot(before[k]));
                                }
                            }
                        }
                    }
                    return Ok(());
                } else {
                    proof {
                        assert(held.spec_collides_with(m));
                    }
                    return Err(ContractConflict { existing: held, requested: m });
                }
            }
            i += 1;
        }
        self.methods.push(m);
        proof {
            assert(!slot_taken(before, m));
            assert(self.methods@ == before.push(m));
            assert(self.methods@.to_set() =~= before.to_set().insert(m)) by {
                assert forall|e: SettingsMethod|
                    self.methods@.to_set().contains(e) == before.to_set().insert(m).contains(e) by {
                    if self.methods@.to_set().contains(e) {
                        let k = choose|k: int| 0 <= k < self.methods@.len() && self.methods@[k] == e;
                        if k < before.len() {
                            assert(before[k] == e);
                        }
                    }
                    if before.to_set().contains(e) {
                        let k = choose|k: int| 0 <= k < before.len() && before[k] == e;
                        assert(self.methods@[k] == e);
                    }
                    if e == m {
                        assert(self.methods@[before.len() as int] == m);
                    }
                }
            }
            assert forall|e: SettingsMethod| before.to_set().contains(e) implies !#[trigger] e.spec_collides_with(
                m,
            ) by {
                let k = choose|k: int| 0 <= k < before.len() && before[k] == e;
                assert(!before[k].same_slot(m));
            }
            assert forall|a: int, b: int| 0 <= a < b < self.methods@.len() implies !(
            #[trigger] self.methods@[a]).same_slot(#[trigger] self.methods@[b]) by {
                if b < before.len() {
                    assert(!before[a].same_slot(before[b]));
                } else {
                    assert(!before[a].same_slot(m));
                }
            }
        }
        Ok(())
    }

    /// Requires every method of `requested`, in order, or none of them:
    /// at the first conflict the contract is left as it was.
    pub fn require_all(&mut self, requested: &Vec<SettingsMethod>) -> (r: Result<
        (),
        ContractConflict,
    >)
        requires
            old(self).wf(),
        ensures
            final(self).wf(),
            match require_all_spec(old(self).listed(), requested@, requested@.len()) {
                Ok(listed) => r is Ok && final(self).listed() == listed,
                Err(conflict) => r == Err::<(), ContractConflict>(conflict) && final(self).listed()
                    == old(self).listed(),
            },
            r is Ok ==> final(self)@ == old(self)@.union(requested@.to_set()),
            r is Err ==> final(self)@ == old(self)@,
    {
        let mut scratch = SettingsContract { methods: self.methods() };
        let mut i: usize = 0;
        while i < requested.len()
            invariant
                i <= requested.len(),
                scratch.wf(),
                require_all_spec(old(self).listed(), requested@, i as nat) == Ok::<
                    Seq<SettingsMethod>,
                    ContractConflict,
                >(scratch.listed()),
                scratch@ == old(self)@.union(requested@.take(i as int).to_set()),
                self.listed() == old(self).listed(),
                self.wf(),
            decreases requested.len() - i,
        {
            let ghost sofar = scratch@;
            match scratch.require(requested[i]) {
                Ok(()) => {},
                Err(conflict) => {
                    proof {
                        lemma_conflict_is_final(old(self).listed(), requested@, (i + 1) as nat);
                    }
                    return Err(conflict);
                },
            }
            proof {
                let prefix = requested@.take(i as int);
                let next = requested@.take(i + 1);
                assert(next =~= prefix.push(requested@[i as int]));
                vstd::seq_lib::seq_to_set_is_finite(prefix);
                assert(next.to_set() =~= prefix.to_set().insert(requested@[i as int])) by {
                    assert forall|e: SettingsMethod|
                        next.to_set().contains(e) == prefix.to_set().insert(
                            requested@[i as int],
                        ).contains(e) by {
                        if next.to_set().contains(e) {
                            let k = choose|k: int| 0 <= k < next.len() && next[k] == e;
                            if k < prefix.len() {
                                assert(prefix[k] == e);
                            }
                        }
                        if prefix.to_set().contains(e) {
                            let k = choose|k: int| 0 <= k < prefix.len() && prefix[k] == e;
                            assert(next[k] == e);
                        }
                        if e == requested@[i as int] {
                            assert(next[i as int] == e);
                        }
                    }
                }
                assert(scratch@ =~= old(self)@.union(next.to_set()));
            }
            i += 1;
        }
        proof {
            assert(requested@.take(i as int) =~= requested@);
        }
        *self = scratch;
        Ok(())
    }

    /// Requires the methods that the interface `t` declares, or none of
    /// them where one of them conflicts with what is already required.
    pub fn require_trait(&mut self, t: SettingsTrait) -> (r: Result<(), ContractConflict>)
        requires
            old(self).wf(),
        ensures
            final(self).wf(),
            match require_all_spec(old(self).listed(), t.spec_methods(), t.spec_methods().len()) {
                Ok(listed) => r is Ok && final(self).listed() == listed,
                Err(conflict) => r == Err::<(), ContractConflict>(conflict) && final(self).listed()
                    == old(self).listed(),
            },
            final(self).listed() == with_trait(old(self).listed(), t),
            r is Ok ==> final(self)@ == old(self)@.union(t.spec_methods().to_set()),
            r is Err ==> final(self)@ == old(self)@,
            all_declared(old(self).listed()) ==> r is Ok && all_declared(final(self).listed()),
    {
        let declared = t.methods();
        proof {
            if all_declared(self.listed()) {
                lemma_declared_never_conflict(self.listed(), declared@, declared@.len());
            }
        }
        self.require_all(&declared)
    }
}

/// The interface of the first of `listed` whose interface is not among
/// `provided`, if there is such a method.
pub open spec fn first_missing(listed: Seq<SettingsMethod>, provided: Seq<SettingsTrait>) -> Option<
    SettingsTrait,
>
    decreases listed.len(),
{
    if listed.len() == 0 {
        None
    } else if !provided.contains(listed[0].owner) {
        Some(listed[0].owner)
    } else {
        first_missing(listed.drop_first(), provided)
    }
}

/// Whether `t` is among `provided`.
pub fn provides(provided: &Vec<SettingsTrait>, t: SettingsTrait) -> (b: bool)
    ensures
        b == provided@.contains(t),
{
    let mut i: usize = 0;
    while i < provided.len()
        invariant
            i <= provided.len(),
            forall|k: int| 0 <= k < i ==> provided@[k] != t,
        decreases provided.len() - i,
    {
        if provided[i] == t {
            return true;
        }
        i += 1;
    }
    false
}

/// The interfaces of the first `n` of `listed`, each once, in the order
/// in which they first occur.
pub open spec fn owners_upto(listed: Seq<SettingsMethod>, n: nat) -> Seq<SettingsTrait>
    decreases n,
{
    if n == 0 {
        Seq::empty()
    } else {
        let sofar = owners_upto(listed, (n - 1) as nat);
        if sofar.contains(listed[n - 1].owner) {
            sofar
        } else {
            sofar.push(listed[n - 1].owner)
        }
    }
}

/// `owners_upto` names each interface once, and names exactly the
/// interfaces of the methods that it was given.
pub proof fn lemma_owners_upto(listed: Seq<SettingsMethod>, n: nat)
    requires
        n <= listed.len(),
    ensures
        owners_upto(listed, n).no_duplicates(),
        forall|t: SettingsTrait|
            owners_upto(listed, n).contains(t) <==> exists|k: int|
                0 <= k < n && (#[trigger] listed[k]).owner == t,
    decreases n,
{
    if n > 0 {
        lemma_owners_upto(listed, (n - 1) as nat);
        let sofar = owners_upto(listed, (n - 1) as nat);
        let now = owners_upto(listed, n);
        let added = listed[n - 1].owner;
        assert forall|t: SettingsTrait|
            now.contains(t) <==> exists|k: int| 0 <= k < n && (#[trigger] listed[k]).owner == t by {
            if now.contains(t) {
                let j = choose|j: int| 0 <= j < now.len() && now[j] == t;
                if j < sofar.len() {
                    assert(sofar[j] == t);
                    assert(sofar.contains(t));
                    let k = choose|k: int| 0 <= k < n - 1 && (#[trigger] listed[k]).owner == t;
                    assert(0 <= k < n && listed[k].owner == t);
                } else {
                    assert(listed[n - 1].owner == t);
                }
            }
            if exists|k: int| 0 <= k < n && (#[trigger] listed[k]).owner == t {
                let k = choose|k: int| 0 <= k < n && (#[trigger] listed[k]).owner == t;
                if k < n - 1 {
                    assert(sofar.contains(t));
                    let j = choose|j: int| 0 <= j < sofar.len() && sofar[j] == t;
                    assert(now[j] == t);
                } else if sofar.contains(added) {
                } else {
                    assert(now[sofar.len() as int] == t);
                }
            }
        }
        if !sofar.contains(added) {
            assert forall|i: int, j: int| 0 <= i < now.len() && 0 <= j < now.len() && i != j implies now[i]
                != now[j] by {
                if i < sofar.len() && j < sofar.len() {
                } else if i < sofar.len() {
                    assert(sofar[i] == now[i]);
                } else {
                    assert(sofar[j] == now[j]);
                }
            }
        }
    }
}

impl SettingsContract {
    /// The interfaces that the contract asks for, each once, in the order
    /// in which their methods were first required.
    pub fn traits(&self) -> (owners: Vec<SettingsTrait>)
        ensures
            owners@ == owners_upto(self.listed(), self.listed().len()),
            owners@.no_duplicates(),
            forall|t: SettingsTrait|
                owners@.contains(t) <==> exists|m: SettingsMethod|
                    self@.contains(m) && #[trigger] m.owner == t,
    {
        let mut owners: Vec<SettingsTrait> = Vec::new();
        let mut i: usize = 0;
        while i < self.methods.len()
            invariant
                i <= self.methods.len(),
                owners@ == owners_upto(self.methods@, i as nat),
            decreases self.methods.len() - i,
        {
            let owner = self.methods[i].owner;
            if !provides(&owners, owner) {
                owners.push(owner);
            }
            i += 1;
        }
        proof {
            lemma_owners_upto(self.methods@, self.methods@.len());
            assert forall|t: SettingsTrait|
                owners@.contains(t) <==> exists|m: SettingsMethod|
                    self@.contains(m) && #[trigger] m.owner == t by {
                if owners@.contains(t) {
                    let k = choose|k: int|
                        0 <= k < self.methods@.len() && (#[trigger] self.methods@[k]).owner == t;
                    assert(self@.contains(self.methods@[k]));
                }
                if exists|m: SettingsMethod| self@.contains(m) && #[trigger] m.owner == t {
                    let m = choose|m: SettingsMethod| self@.contains(m) && #[trigger] m.owner == t;
                    let k = choose|k: int| 0 <= k < self.methods@.len() && self.methods@[k] == m;
                    assert(self.methods@[k].owner == t);
                }
            }
        }
        owners
    }

    /// Holds a provider to the contract. `provided` names the interfaces
    /// that the provider implements. The result is the interface of the
    /// first required method that the provider lacks, or nothing where
    /// the provider implements the interface of every required method.
    pub fn first_unsatisfied(&self, provided: &Vec<SettingsTrait>) -> (missing: Option<
        SettingsTrait,
    >)
        ensures
            missing == first_missing(self.listed(), provided@),
            missing is None <==> forall|m: SettingsMethod|
                self@.contains(m) ==> provided@.contains(#[trigger] m.owner),
            missing matches Some(t) ==> !provided@.contains(t) && exists|m: SettingsMethod|
                self@.contains(m) && #[trigger] m.owner == t,
    {
        let mut i: usize = 0;
        assert(self.methods@.skip(0) =~= self.methods@);
        while i < self.methods.len()
            invariant
                i <= self.methods.len(),
                first_missing(self.methods@, provided@) == first_missing(
                    self.methods@.skip(i as int),
                    provided@,
                ),
                forall|k: int| 0 <= k < i ==> provided@.contains((#[trigger] self.methods@[k]).owner),
            decreases self.methods.len() - i,
        {
            let owner = self.methods[i].owner;
            proof {
                let rest = self.methods@.skip(i as int);
                assert(rest[0] == self.methods@[i as int]);
                assert(rest.drop_first() =~= self.methods@.skip(i + 1));
            }
            if !provides(provided, owner) {
                proof {
                    assert(self@.contains(self.methods@[i as int]));
                }
                return Some(owner);
            }
            i += 1;
        }
        proof {
            assert(self.methods@.skip(i as int).len() == 0);
            assert forall|m: SettingsMethod| self@.contains(m) implies provided@.contains(
                #[trigger] m.owner,
            ) by {
                let k = choose|k: int| 0 <= k < self.methods@.len() && self.methods@[k] == m;
                assert(provided@.contains(self.methods@[k].owner));
            }
        }
        None
    }
}

/// Whether every entry of `methods` is a method as its interface declares it.
pub open spec fn all_declared(methods: Seq<SettingsMethod>) -> bool {
    forall|i: int| 0 <= i < methods.len() ==> is_declared(#[trigger] methods[i])
}

/// A conflict among the first `k` requirements is the result for every
/// longer prefix too.
proof fn lemma_conflict_is_final(methods: Seq<SettingsMethod>, requested: Seq<SettingsMethod>, k: nat)
    requires
        k <= requested.len(),
        require_all_spec(methods, requested, k) is Err,
    ensures
        forall|n: nat|
            k <= n ==> #[trigger] require_all_spec(methods, requested, n) == require_all_spec(
                methods,
                requested,
                k,
            ),
{
    assert forall|n: nat| k <= n implies #[trigger] require_all_spec(methods, requested, n)
        == require_all_spec(methods, requested, k) by {
        lemma_conflict_stays(methods, requested, k, n);
    }
}

proof fn lemma_conflict_stays(
    methods: Seq<SettingsMethod>,
    requested: Seq<SettingsMethod>,
    k: nat,
    n: nat,
)
    requires
        k <= n,
        require_all_spec(methods, requested, k) is Err,
    ensures
        require_all_spec(methods, requested, n) == require_all_spec(methods, requested, k),
    decreases n,
{
    if n > k {
        lemma_conflict_stays(methods, requested, k, (n - 1) as nat);
    }
}

/// Requiring declared methods of a contract that lists only declared
/// methods never conflicts, and leaves a contract of declared methods.
proof fn lemma_declared_never_conflict(
    methods: Seq<SettingsMethod>,
    requested: Seq<SettingsMethod>,
    n: nat,
)
    requires
        all_declared(methods),
        all_declared(requested),
        n <= requested.len(),
    ensures
        require_all_spec(methods, requested, n) is Ok,
        all_declared(require_all_spec(methods, requested, n)->Ok_0),
    decreases n,
{
    if n > 0 {
        lemma_declared_never_conflict(methods, requested, (n - 1) as nat);
        let sofar = require_all_spec(methods, requested, (n - 1) as nat)->Ok_0;
        let m = requested[n - 1];
        assert(is_declared(m));
        if slot_taken(sofar, m) {
            let held = slot_holder(sofar, m);
            let i = choose|i: int| 0 <= i < sofar.len() && (#[trigger] sofar[i]).same_slot(m);
            assert(is_declared(sofar[i]));
            lemma_declared_methods_agree(held, m);
        } else {
            let pushed = sofar.push(m);
            assert forall|i: int| 0 <= i < pushed.len() implies is_declared(#[trigger] pushed[i]) by {
                if i < sofar.len() {
                    assert(pushed[i] == sofar[i]);
                }
            }
        }
    }
}

/// Requiring a declared method of a contract of declared methods adds it
/// to what the contract holds and keeps the contract in order.
pub proof fn lemma_require_declared(methods: Seq<SettingsMethod>, m: SettingsMethod)
    requires
        slots_distinct(methods),
        all_declared(methods),
        is_declared(m),
    ensures
        require_spec(methods, m) is Ok,
        slots_distinct(require_spec(methods, m)->Ok_0),
        all_declared(require_spec(methods, m)->Ok_0),
        require_spec(methods, m)->Ok_0.to_set() == methods.to_set().insert(m),
{
    if slot_taken(methods, m) {
        let i = choose|i: int| 0 <= i < methods.len() && (#[trigger] methods[i]).same_slot(m);
        assert(is_declared(methods[i]));
        lemma_declared_methods_agree(methods[i], m);
        assert(methods.to_set().contains(m));
        assert(methods.to_set().insert(m) =~= methods.to_set());
    } else {
        let pushed = methods.push(m);
        assert forall|i: int| 0 <= i < pushed.len() implies is_declared(#[trigger] pushed[i]) by {
            if i < methods.len() {
                assert(pushed[i] == methods[i]);
            }
        }
        assert forall|a: int, b: int| 0 <= a < b < pushed.len() implies !(#[trigger] pushed[a]).same_slot(
            #[trigger] pushed[b],
        ) by {
            if b < methods.len() {
                assert(!methods[a].same_slot(methods[b]));
            } else {
                assert(!methods[a].same_slot(m));
            }
        }
        assert forall|e: SettingsMethod|
            pushed.to_set().contains(e) == methods.to_set().insert(m).contains(e) by {
            if pushed.to_set().contains(e) {
                let k = choose|k: int| 0 <= k < pushed.len() && pushed[k] == e;
                if k < methods.len() {
                    assert(methods[k] == e);
                }
            }
            if methods.to_set().contains(e) {
                let k = choose|k: int| 0 <= k < methods.len() && methods[k] == e;
                assert(pushed[k] == e);
            }
            if e == m {
                assert(pushed[methods.len() as int] == m);
            }
        }
        assert(pushed.to_set() =~= methods.to_set().insert(m));
    }
}

/// Requiring the first `n` of a list of declared methods of a contract of
/// declared methods adds them to what the contract holds and keeps the
/// contract in order.
pub proof fn lemma_require_all_declared(
    methods: Seq<SettingsMethod>,
    requested: Seq<SettingsMethod>,
    n: nat,
)
    requires
        slots_distinct(methods),
        all_declared(methods),
        all_declared(requested),
        n <= requested.len(),
    ensures
        require_all_spec(methods, requested, n) is Ok,
        slots_distinct(require_all_spec(methods, requested, n)->Ok_0),
        all_declared(require_all_spec(methods, requested, n)->Ok_0),
        require_all_spec(methods, requested, n)->Ok_0.to_set() == methods.to_set().union(
            requested.take(n as int).to_set(),
        ),
    decreases n,
{
    if n == 0 {
        assert(requested.take(0).to_set() =~= Set::<SettingsMethod>::empty());
        assert(methods.to_set().union(requested.take(0).to_set()) =~= methods.to_set());
    } else {
        lemma_require_all_declared(methods, requested, (n - 1) as nat);
        let sofar = require_all_spec(methods, requested, (n - 1) as nat)->Ok_0;
        let m = requested[n - 1];
        assert(is_declared(m));
        lemma_require_declared(sofar, m);
        let shorter = requested.take(n - 1);
        let longer = requested.take(n as int);
        assert(longer =~= shorter.push(m));
        assert forall|e: SettingsMethod|
            longer.to_set().contains(e) == shorter.to_set().insert(m).contains(e) by {
            if longer.to_set().contains(e) {
                let k = choose|k: int| 0 <= k < longer.len() && longer[k] == e;
                if k < shorter.len() {
                    assert(shorter[k] == e);
                }
            }
            if shorter.to_set().contains(e) {
                let k = choose|k: int| 0 <= k < shorter.len() && shorter[k] == e;
                assert(longer[k] == e);
            }
            if e == m {
                assert(longer[n - 1] == m);
            }
        }
        assert(longer.to_set() =~= shorter.to_set().insert(m));
        assert(sofar.to_set().insert(m) =~= methods.to_set().union(longer.to_set()));
    }
}

} // verus!
