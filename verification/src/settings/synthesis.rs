//! What is generated for a settings provider: the contract it has to
//! satisfy, the accessors that can be written for it, and its identity.

use crate::capability::{descriptor_of, Capability, CapabilitySet, CAPABILITY_COUNT};
use crate::settings::catalogue::{
    all_settings_traits, is_declared, SettingsMethod, SettingsTrait,
};
use crate::capability::all_capabilities;
use crate::settings::contract::{
    all_declared, contract_methods, contract_upto, lemma_require_all_declared, required_methods,
    slots_distinct, trait_required, universal_contract, with_trait, SettingsContract,
};
use vstd::prelude::*;

verus! {

/// Whether `t` is universal or asked for by an enabled capability that
/// stands among the first `n` of the canonical order.
pub open spec fn trait_required_upto(enabled: CapabilitySet, n: int, t: SettingsTrait) -> bool {
    t.spec_is_universal() || exists|c: Capability|
        c.spec_index() < n && enabled.has(c) && #[trigger] c.spec_settings_trait() == t
}

/// The declared methods of the interfaces that `trait_required_upto` allows.
pub open spec fn required_methods_upto(enabled: CapabilitySet, n: int) -> Set<SettingsMethod> {
    Set::new(|m: SettingsMethod| is_declared(m) && trait_required_upto(enabled, n, m.owner))
}

/// The methods that an interface declares are the declared methods that it owns.
proof fn lemma_methods_of_trait(t: SettingsTrait)
    ensures
        t.spec_methods().to_set() == Set::new(|m: SettingsMethod| is_declared(m) && m.owner == t),
{
    let l = t.spec_methods();
    assert forall|m: SettingsMethod| l.to_set().contains(m) == (is_declared(m) && m.owner == t) by {
        if l.contains(m) {
            let k = choose|k: int| 0 <= k < l.len() && l[k] == m;
            assert(l[k].owner == t);
        }
    }
    assert(l.to_set() =~= Set::new(|m: SettingsMethod| is_declared(m) && m.owner == t));
}

/// Requires the methods of an interface of a contract that holds declared
/// methods only. Declared methods never conflict, so this cannot fail.
fn require_declared(contract: &mut SettingsContract, t: SettingsTrait)
    requires
        old(contract).wf(),
        all_declared(old(contract).listed()),
    ensures
        final(contract).wf(),
        all_declared(final(contract).listed()),
        final(contract).listed() == with_trait(old(contract).listed(), t),
        final(contract)@ == old(contract)@.union(t.spec_methods().to_set()),
{
    match contract.require_trait(t) {
        Ok(()) => {},
        Err(_) => {
            assert(false);
        },
    }
}

/// Synthesizes the contract of a build: the methods of the universal
/// interfaces, then those of the interface of each enabled capability in
/// canonical order, each method once.
///
/// The result depends on nothing but the set of enabled capabilities, and
/// it requires exactly the declared methods of the universal interfaces
/// and of the interfaces of the enabled capabilities.
pub fn generate_settings_signature(enabled: &CapabilitySet) -> (contract: SettingsContract)
    ensures
        contract.wf(),
        contract.listed() == contract_methods(*enabled),
        contract@ == required_methods(enabled@),
        contract@ == contract.listed().to_set(),
        contract.listed().no_duplicates(),
        all_declared(contract.listed()),
{
    let mut contract = SettingsContract::new();
    proof {
        lemma_methods_of_trait(SettingsTrait::ServiceInfo);
        lemma_methods_of_trait(SettingsTrait::MyTelemetrySettings);
        lemma_methods_of_trait(SettingsTrait::SeqSettings);
    }
    require_declared(&mut contract, SettingsTrait::ServiceInfo);
    require_declared(&mut contract, SettingsTrait::MyTelemetrySettings);
    require_declared(&mut contract, SettingsTrait::SeqSettings);
    proof {
        assert(contract.listed() == universal_contract());
        assert(contract@ =~= required_methods_upto(*enabled, 0));
    }
    let mut i: usize = 0;
    while i < CAPABILITY_COUNT
        invariant
            i <= CAPABILITY_COUNT,
            contract.wf(),
            all_declared(contract.listed()),
            contract.listed() == contract_upto(*enabled, i as nat),
            contract@ == required_methods_upto(*enabled, i as int),
        decreases CAPABILITY_COUNT - i,
    {
        let c = Capability::from_index(i).unwrap();
        if enabled.contains(c) {
            let t = c.settings_trait();
            require_declared(&mut contract, t);
            proof {
                lemma_methods_of_trait(t);
                assert(contract@ =~= required_methods_upto(*enabled, i + 1)) by {
                    assert forall|m: SettingsMethod|
                        contract@.contains(m) == required_methods_upto(*enabled, i + 1).contains(
                            m,
                        ) by {
                        if trait_required_upto(*enabled, i + 1, m.owner) && !trait_required_upto(
                            *enabled,
                            i as int,
                            m.owner,
                        ) {
                            let d = choose|d: Capability|
                                d.spec_index() < i + 1 && enabled.has(d)
                                    && #[trigger] d.spec_settings_trait() == m.owner;
                            assert(d.spec_index() == i);
                            assert(d == c);
                        }
                        if m.owner == t {
                            assert(c.spec_settings_trait() == t);
                        }
                    }
                }
            }
        } else {
            proof {
                assert(contract@ =~= required_methods_upto(*enabled, i + 1)) by {
                    assert forall|m: SettingsMethod|
                        required_methods_upto(*enabled, i as int).contains(m)
                            == required_methods_upto(*enabled, i + 1).contains(m) by {
                        if trait_required_upto(*enabled, i + 1, m.owner) && !trait_required_upto(
                            *enabled,
                            i as int,
                            m.owner,
                        ) {
                            let d = choose|d: Capability|
                                d.spec_index() < i + 1 && enabled.has(d)
                                    && #[trigger] d.spec_settings_trait() == m.owner;
                            assert(d.spec_index() == i);
                            assert(d == c);
                        }
                    }
                }
            }
        }
        i += 1;
    }
    proof {
        assert(contract@ =~= required_methods(enabled@)) by {
            assert forall|m: SettingsMethod|
                required_methods_upto(*enabled, CAPABILITY_COUNT as int).contains(m)
                    == required_methods(enabled@).contains(m) by {
                if trait_required(enabled@, m.owner) && !m.owner.spec_is_universal() {
                    let d = choose|d: Capability|
                        enabled@.contains(d) && #[trigger] d.spec_settings_trait() == m.owner;
                    assert(d.spec_index() < CAPABILITY_COUNT && enabled.has(d));
                }
                if trait_required_upto(*enabled, CAPABILITY_COUNT as int, m.owner)
                    && !m.owner.spec_is_universal() {
                    let d = choose|d: Capability|
                        d.spec_index() < CAPABILITY_COUNT && enabled.has(d)
                            && #[trigger] d.spec_settings_trait() == m.owner;
                    assert(enabled@.contains(d));
                }
            }
        }
    }
    proof {
        contract.lemma_view();
    }
    contract
}

/// Every prefix of the synthesis is in order and holds the declared
/// methods of the interfaces that were asked for so far.
proof fn lemma_contract_upto(enabled: CapabilitySet, n: nat)
    requires
        n <= CAPABILITY_COUNT,
    ensures
        slots_distinct(contract_upto(enabled, n)),
        all_declared(contract_upto(enabled, n)),
        contract_upto(enabled, n).to_set() == required_methods_upto(enabled, n as int),
    decreases n,
{
    if n == 0 {
        let none = Seq::<SettingsMethod>::empty();
        let info = SettingsTrait::ServiceInfo;
        let telemetry = SettingsTrait::MyTelemetrySettings;
        let seq = SettingsTrait::SeqSettings;
        lemma_trait_methods_declared(info);
        lemma_trait_methods_declared(telemetry);
        lemma_trait_methods_declared(seq);
        lemma_methods_of_trait(info);
        lemma_methods_of_trait(telemetry);
        lemma_methods_of_trait(seq);
        lemma_require_all_declared(none, info.spec_methods(), info.spec_methods().len());
        let one = with_trait(none, info);
        lemma_require_all_declared(one, telemetry.spec_methods(), telemetry.spec_methods().len());
        let two = with_trait(one, telemetry);
        lemma_require_all_declared(two, seq.spec_methods(), seq.spec_methods().len());
        let three = with_trait(two, seq);
        assert(info.spec_methods().take(info.spec_methods().len() as int) =~= info.spec_methods());
        assert(telemetry.spec_methods().take(telemetry.spec_methods().len() as int)
            =~= telemetry.spec_methods());
        assert(seq.spec_methods().take(seq.spec_methods().len() as int) =~= seq.spec_methods());
        assert(none.to_set() =~= Set::<SettingsMethod>::empty());
        assert(three.to_set() =~= required_methods_upto(enabled, 0));
    } else {
        lemma_contract_upto(enabled, (n - 1) as nat);
        let sofar = contract_upto(enabled, (n - 1) as nat);
        let c = all_capabilities()[n - 1];
        assert(c.spec_index() == n - 1);
        let t = c.spec_settings_trait();
        if enabled.has(c) {
            lemma_trait_methods_declared(t);
            lemma_methods_of_trait(t);
            lemma_require_all_declared(sofar, t.spec_methods(), t.spec_methods().len());
            assert(t.spec_methods().take(t.spec_methods().len() as int) =~= t.spec_methods());
        }
        assert forall|m: SettingsMethod|
            contract_upto(enabled, n).to_set().contains(m) == required_methods_upto(
                enabled,
                n as int,
            ).contains(m) by {
            if trait_required_upto(enabled, n as int, m.owner) && !trait_required_upto(
                enabled,
                n - 1,
                m.owner,
            ) {
                let d = choose|d: Capability|
                    d.spec_index() < n && enabled.has(d) && #[trigger] d.spec_settings_trait()
                        == m.owner;
                assert(d.spec_index() == n - 1);
                assert(d == c);
            }
            if enabled.has(c) && m.owner == t {
                assert(c.spec_settings_trait() == t);
            }
        }
        assert(contract_upto(enabled, n).to_set() =~= required_methods_upto(enabled, n as int));
    }
}

/// The methods that an interface declares are declared.
proof fn lemma_trait_methods_declared(t: SettingsTrait)
    ensures
        all_declared(t.spec_methods()),
{
    let l = t.spec_methods();
    assert forall|i: int| 0 <= i < l.len() implies is_declared(#[trigger] l[i]) by {
        assert(l[i].owner == t);
        assert(l.contains(l[i]));
    }
}

/// The contract of a build is exactly the union that it is meant to be:
/// it lists the declared methods of the universal interfaces and of the
/// interface of every enabled capability, lists nothing else, and lists
/// no method and no slot twice.
pub proof fn lemma_contract_is_the_union(enabled: CapabilitySet)
    ensures
        contract_methods(enabled).to_set() == required_methods(enabled@),
        contract_methods(enabled).no_duplicates(),
        slots_distinct(contract_methods(enabled)),
        forall|t: SettingsTrait|
            t.spec_is_universal() ==> forall|i: int|
                0 <= i < t.spec_methods().len() ==> contract_methods(enabled).contains(
                    #[trigger] t.spec_methods()[i],
                ),
{
    lemma_contract_upto(enabled, CAPABILITY_COUNT as nat);
    let listed = contract_methods(enabled);
    assert forall|m: SettingsMethod|
        required_methods_upto(enabled, CAPABILITY_COUNT as int).contains(m) == required_methods(
            enabled@,
        ).contains(m) by {
        if trait_required(enabled@, m.owner) && !m.owner.spec_is_universal() {
            let d = choose|d: Capability|
                enabled@.contains(d) && #[trigger] d.spec_settings_trait() == m.owner;
            assert(d.spec_index() < CAPABILITY_COUNT && enabled.has(d));
        }
        if trait_required_upto(enabled, CAPABILITY_COUNT as int, m.owner)
            && !m.owner.spec_is_universal() {
            let d = choose|d: Capability|
                d.spec_index() < CAPABILITY_COUNT && enabled.has(d)
                    && #[trigger] d.spec_settings_trait() == m.owner;
            assert(enabled@.contains(d));
        }
    }
    assert(listed.to_set() =~= required_methods(enabled@));
    assert forall|i: int, j: int| 0 <= i < listed.len() && 0 <= j < listed.len() && i != j implies listed[i]
        != listed[j] by {
        if i < j {
            assert(!listed[i].same_slot(listed[j]));
        } else {
            assert(!listed[j].same_slot(listed[i]));
        }
    }
    assert forall|t: SettingsTrait| t.spec_is_universal() implies forall|i: int|
        0 <= i < t.spec_methods().len() ==> listed.contains(#[trigger] t.spec_methods()[i]) by {
        lemma_trait_methods_declared(t);
        assert forall|i: int| 0 <= i < t.spec_methods().len() implies listed.contains(
            #[trigger] t.spec_methods()[i],
        ) by {
            let m = t.spec_methods()[i];
            assert(m.owner == t);
            assert(required_methods(enabled@).contains(m));
            assert(listed.to_set().contains(m));
        }
    }
}

/// The contract of a build does not depend on the order in which its
/// capabilities were enabled, nor on how often one was named: two lists
/// that name the same capabilities give the same descriptor, and so the
/// same contract, method for method.
pub proof fn lemma_enable_order_is_irrelevant(first: Seq<Capability>, second: Seq<Capability>)
    requires
        first.to_set() == second.to_set(),
    ensures
        descriptor_of(first.to_set()) == descriptor_of(second.to_set()),
        contract_methods(descriptor_of(first.to_set())) == contract_methods(
            descriptor_of(second.to_set()),
        ),
        required_methods(descriptor_of(first.to_set())@) == required_methods(first.to_set()),
{
    let d = descriptor_of(first.to_set());
    assert(d@ =~= first.to_set());
}

/// Whether an accessor is generated for `m`.
pub open spec fn accessor_generated(m: SettingsMethod) -> bool {
    m.owner.spec_is_generated()
}

/// Whether the interface `t` is brought into scope where the provider of
/// a build with `enabled` is written: the log sink always, and the
/// interface of every enabled capability but telemetry. The interface
/// that describes the service itself needs no import, and the telemetry
/// interface is named in full where a provider implements it.
pub open spec fn trait_imported(enabled: Set<Capability>, t: SettingsTrait) -> bool {
    t != SettingsTrait::ServiceInfo && t != SettingsTrait::MyTelemetrySettings && trait_required(
        enabled,
        t,
    )
}

/// The first `n` entries of `s` that satisfy `keep`, in their order.
pub open spec fn kept<A>(s: Seq<A>, keep: spec_fn(A) -> bool, n: nat) -> Seq<A>
    decreases n,
{
    if n == 0 {
        Seq::empty()
    } else if keep(s[n - 1]) {
        kept(s, keep, (n - 1) as nat).push(s[n - 1])
    } else {
        kept(s, keep, (n - 1) as nat)
    }
}

/// `kept` over a whole sequence is its filter.
pub proof fn lemma_kept_is_filter<A>(s: Seq<A>, keep: spec_fn(A) -> bool, n: nat)
    requires
        n <= s.len(),
    ensures
        kept(s, keep, n) == s.take(n as int).filter(keep),
    decreases n,
{
    reveal(Seq::filter);
    if n == 0 {
        assert(s.take(0).len() == 0);
    } else {
        lemma_kept_is_filter(s, keep, (n - 1) as nat);
        assert(s.take(n as int).drop_last() =~= s.take(n - 1));
        assert(s.take(n as int).last() == s[n - 1]);
    }
}

/// `kept` holds what the sequence holds and `keep` allows.
pub proof fn lemma_kept_contains<A>(s: Seq<A>, keep: spec_fn(A) -> bool, n: nat, x: A)
    requires
        n <= s.len(),
    ensures
        kept(s, keep, n).contains(x) <==> keep(x) && s.take(n as int).contains(x),
    decreases n,
{
    if n == 0 {
        assert(s.take(0).len() == 0);
    } else {
        lemma_kept_contains(s, keep, (n - 1) as nat, x);
        let before = kept(s, keep, (n - 1) as nat);
        let now = kept(s, keep, n);
        let shorter = s.take(n - 1);
        let longer = s.take(n as int);
        assert(longer =~= shorter.push(s[n - 1]));
        if shorter.contains(x) {
            let k = choose|k: int| 0 <= k < shorter.len() && shorter[k] == x;
            assert(longer[k] == x);
        }
        if longer.contains(x) {
            let k = choose|k: int| 0 <= k < longer.len() && longer[k] == x;
            if k < n - 1 {
                assert(shorter[k] == x);
            }
        }
        assert(longer[n - 1] == s[n - 1]);
        if keep(s[n - 1]) {
            assert(now == before.push(s[n - 1]));
            if before.contains(x) {
                let k = choose|k: int| 0 <= k < before.len() && before[k] == x;
                assert(now[k] == x);
            }
            if now.contains(x) {
                let k = choose|k: int| 0 <= k < now.len() && now[k] == x;
                if k < before.len() {
                    assert(before[k] == x);
                }
            }
            assert(now[before.len() as int] == s[n - 1]);
        }
    }
}

/// What is kept of a sequence without duplicates has no duplicates.
pub proof fn lemma_kept_no_duplicates<A>(s: Seq<A>, keep: spec_fn(A) -> bool, n: nat)
    requires
        n <= s.len(),
        s.no_duplicates(),
    ensures
        kept(s, keep, n).no_duplicates(),
    decreases n,
{
    if n > 0 {
        lemma_kept_no_duplicates(s, keep, (n - 1) as nat);
        let before = kept(s, keep, (n - 1) as nat);
        let last = s[n - 1];
        if keep(last) {
            lemma_kept_contains(s, keep, (n - 1) as nat, last);
            let shorter = s.take(n - 1);
            if shorter.contains(last) {
                let k = choose|k: int| 0 <= k < shorter.len() && shorter[k] == last;
                assert(s[k] == s[n - 1]);
            }
            let now = before.push(last);
            assert forall|i: int, j: int| 0 <= i < now.len() && 0 <= j < now.len() && i != j implies now[i]
                != now[j] by {
                if i < before.len() && j < before.len() {
                } else if i < before.len() {
                    assert(before[i] == now[i]);
                    assert(before.contains(now[i]));
                } else {
                    assert(before[j] == now[j]);
                    assert(before.contains(now[j]));
                }
            }
        }
    }
}

/// The accessors that are generated for the provider of a build: one for
/// the log sink, and one for each of the message bus, the two sides of
/// the cache and the relational store that the build enables; none for a
/// capability that is not enabled, and none twice. They come in the order
/// of the contract, and each names the entry of the settings model that
/// it reads.
pub fn auto_generate_settings_traits(enabled: &CapabilitySet) -> (accessors: Vec<SettingsMethod>)
    ensures
        accessors@ == contract_methods(*enabled).filter(|m: SettingsMethod| accessor_generated(m)),
        forall|m: SettingsMethod|
            accessors@.contains(m) <==> required_methods(enabled@).contains(m)
                && accessor_generated(m),
        accessors@.no_duplicates(),
{
    let contract = generate_settings_signature(enabled);
    let listed = contract.methods();
    let ghost keep = |m: SettingsMethod| accessor_generated(m);
    let mut accessors: Vec<SettingsMethod> = Vec::new();
    let mut i: usize = 0;
    while i < listed.len()
        invariant
            i <= listed.len(),
            accessors@ == kept(listed@, keep, i as nat),
            keep == |m: SettingsMethod| accessor_generated(m),
        decreases listed.len() - i,
    {
        let m = listed[i];
        if m.owner.is_generated() {
            accessors.push(m);
        }
        i += 1;
    }
    proof {
        lemma_kept_is_filter(listed@, keep, listed@.len());
        lemma_kept_no_duplicates(listed@, keep, listed@.len());
        assert(listed@.take(listed@.len() as int) =~= listed@);
        contract.lemma_view();
        assert forall|m: SettingsMethod|
            accessors@.contains(m) <==> required_methods(enabled@).contains(m)
                && accessor_generated(m) by {
            lemma_kept_contains(listed@, keep, listed@.len(), m);
            assert(keep(m) == accessor_generated(m));
            assert(listed@.to_set().contains(m) == listed@.contains(m));
        }
    }
    accessors
}

/// The interfaces that are brought into scope where the provider of a
/// build is written: the log sink, then the interface of every enabled
/// capability but telemetry in canonical order, each once.
pub fn use_settings(enabled: &CapabilitySet) -> (imports: Vec<SettingsTrait>)
    ensures
        imports@ == all_settings_traits().filter(|t: SettingsTrait| trait_imported(enabled@, t)),
        forall|t: SettingsTrait| imports@.contains(t) <==> trait_imported(enabled@, t),
        imports@.no_duplicates(),
{
    let all = SettingsTrait::all();
    let ghost keep = |t: SettingsTrait| trait_imported(enabled@, t);
    let mut imports: Vec<SettingsTrait> = Vec::new();
    let mut i: usize = 0;
    while i < all.len()
        invariant
            i <= all.len(),
            all@ == all_settings_traits(),
            imports@ == kept(all@, keep, i as nat),
            keep == |t: SettingsTrait| trait_imported(enabled@, t),
        decreases all.len() - i,
    {
        let t = all[i];
        let wanted = match t {
            SettingsTrait::ServiceInfo => false,
            SettingsTrait::MyTelemetrySettings => false,
            _ => t.is_universal() || match t.capability() {
                Some(c) => enabled.contains(c),
                None => false,
            },
        };
        proof {
            if trait_required(enabled@, t) && !t.spec_is_universal() {
                let d = choose|d: Capability|
                    enabled@.contains(d) && #[trigger] d.spec_settings_trait() == t;
                assert(t.spec_capability() == Some(d));
            }
            if t.spec_capability() is Some {
                assert(t.spec_capability()->Some_0.spec_settings_trait() == t);
            }
            assert(wanted == trait_imported(enabled@, t));
            assert(keep(t) == trait_imported(enabled@, t));
        }
        if wanted {
            imports.push(t);
        }
        i += 1;
    }
    proof {
        lemma_kept_is_filter(all@, keep, all@.len());
        assert(all@.no_duplicates()) by {
            assert forall|i: int, j: int|
                0 <= i < all@.len() && 0 <= j < all@.len() && i != j implies all@[i] != all@[j] by {
                assert(all@[i].spec_position() == i);
                assert(all@[j].spec_position() == j);
            }
        }
        lemma_kept_no_duplicates(all@, keep, all@.len());
        assert(all@.take(all@.len() as int) =~= all@);
        assert forall|t: SettingsTrait| imports@.contains(t) <==> trait_imported(enabled@, t) by {
            lemma_kept_contains(all@, keep, all@.len(), t);
            assert(keep(t) == trait_imported(enabled@, t));
            assert(all@[t.spec_position()] == t);
        }
    }
    imports
}

} // verus!
