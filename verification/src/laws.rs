//! What holds of every sequence of registrations and syntheses.
use vstd::prelude::*;
use crate::decl::{Binding, EntryDecl, MethodDecl};
use crate::error::Error;
use crate::registrar::{
    packed_params, packed_start, registration, simple_bindings, Transformed,
};
use crate::registry::{distinct_opcodes, has_opcode, EntryView};
use crate::synth::{selected_arm, synthesis, FallbackPolicy, GeneratedEntry};

verus! {

/// The entry that a successful registration of `decl` under `opcode` adds.
pub open spec fn entry_of(decl: MethodDecl, opcode: u8) -> EntryView {
    EntryView { opcode, name: decl.name@, has_args: packed_params(decl.params@).len() > 0 }
}

/// Two methods with simple parameters, registered one after the other on an
/// open registry that holds neither opcode: with different opcodes both
/// registrations succeed and the registry holds both, in that order; with the
/// same opcode the first succeeds, the second fails with `DuplicateOpcode`,
/// and the registry retains only the first.
pub proof fn lemma_register_twice(
    before: Seq<EntryView>,
    first: MethodDecl,
    o1: u8,
    r1: Result<Transformed, Error>,
    between: Seq<EntryView>,
    second: MethodDecl,
    o2: u8,
    r2: Result<Transformed, Error>,
    after: Seq<EntryView>,
)
    requires
        !has_opcode(before, o1),
        !has_opcode(before, o2),
        simple_bindings(packed_params(first.params@)),
        simple_bindings(packed_params(second.params@)),
        registration(before, false, first, o1, r1, between),
        registration(between, false, second, o2, r2, after),
    ensures
        r1 is Ok,
        between == before.push(entry_of(first, o1)),
        o1 != o2 ==> r2 is Ok && after == before.push(entry_of(first, o1)).push(
            entry_of(second, o2),
        ),
        o1 == o2 ==> r2 == Err::<Transformed, Error>(Error::DuplicateOpcode { opcode: o1 })
            && after == before.push(entry_of(first, o1)),
{
    let e1 = entry_of(first, o1);
    assert(between[before.len() as int] == e1);
    if o1 != o2 {
        assert forall|i: int| 0 <= i < between.len() implies (#[trigger] between[i]).opcode
            != o2 by {
            if i < before.len() {
                assert(between[i] == before[i]);
            }
        }
    }
}

/// A registration that succeeds keeps the registry's invariant: no opcode is
/// registered twice.
pub proof fn lemma_registration_keeps_opcodes_distinct(
    before: Seq<EntryView>,
    closed: bool,
    decl: MethodDecl,
    opcode: u8,
    r: Result<Transformed, Error>,
    after: Seq<EntryView>,
)
    requires
        distinct_opcodes(before),
        registration(before, closed, decl, opcode, r, after),
    ensures
        distinct_opcodes(after),
        r is Err ==> after == before,
        r is Ok ==> after.len() == before.len() + 1,
{
    if r is Ok {
        assert forall|i: int, j: int| 0 <= i < j < after.len() implies (#[trigger] after[i]).opcode
            != (#[trigger] after[j]).opcode by {
            if j < before.len() {
                assert(after[i] == before[i] && after[j] == before[j]);
            } else {
                assert(after[i] == before[i]);
            }
        }
    }
}

/// A method without packed parameters, once registered, stands as it was
/// declared: no packed type is derived, and the registry records that the
/// handler takes no arguments.
pub proof fn lemma_no_parameters_no_packed_type(
    before: Seq<EntryView>,
    closed: bool,
    decl: MethodDecl,
    opcode: u8,
    r: Result<Transformed, Error>,
    after: Seq<EntryView>,
)
    requires
        registration(before, closed, decl, opcode, r, after),
        r is Ok,
        packed_params(decl.params@).len() == 0,
    ensures
        r == Ok::<Transformed, Error>(Transformed::Unchanged(decl)),
        after == before.push(EntryView { opcode, name: decl.name@, has_args: false }),
{
}

/// A method with packed parameters, once registered, has a packed type with
/// one field for each of them, in the order of declaration, and destructures
/// it into the identifiers of those same parameters, in that order; the
/// registry records that the handler takes arguments.
pub proof fn lemma_packed_type_follows_declaration(
    before: Seq<EntryView>,
    closed: bool,
    decl: MethodDecl,
    opcode: u8,
    r: Result<Transformed, Error>,
    after: Seq<EntryView>,
)
    requires
        registration(before, closed, decl, opcode, r, after),
        r is Ok,
        packed_params(decl.params@).len() >= 1,
    ensures
        r matches Ok(Transformed::Packed { packed, method }) && {
            let start = packed_start(decl.params@);
            let n = decl.params@.len() - start;
            &&& packed.fields@.len() == n
            &&& method.bindings@.len() == n
            &&& method.argument_type@ == packed.name@
            &&& forall|i: int|
                0 <= i < n ==> (#[trigger] packed.fields@[i])@ == decl.params@[start + i].ty@
            &&& forall|i: int|
                0 <= i < n ==> decl.params@[start + i].binding == Binding::Ident(
                    #[trigger] method.bindings@[i],
                )
        },
        after == before.push(EntryView { opcode, name: decl.name@, has_args: true }),
{
    let rest = packed_params(decl.params@);
    let start = packed_start(decl.params@);
    assert forall|i: int| 0 <= i < rest.len() implies #[trigger] rest[i] == decl.params@[start + i] by {}
}

/// Once the entry point has been synthesized, every registration fails with
/// `RegistrationAfterClose` and leaves the registry unchanged.
pub proof fn lemma_registration_after_synthesis_fails(
    entries: Seq<EntryView>,
    closed: bool,
    entry: EntryDecl,
    policy: FallbackPolicy,
    synthesized: Result<GeneratedEntry, Error>,
    closed_after: bool,
    decl: MethodDecl,
    opcode: u8,
    r: Result<Transformed, Error>,
    after: Seq<EntryView>,
)
    requires
        synthesis(entries, closed, entry, policy, synthesized, closed_after),
        registration(entries, closed_after, decl, opcode, r, after),
    ensures
        r == Err::<Transformed, Error>(Error::RegistrationAfterClose),
        after == entries,
{
}

/// A second synthesis against the same registry fails with
/// `EntryAlreadySynthesized`, whatever the first gave.
pub proof fn lemma_second_synthesis_fails(
    entries: Seq<EntryView>,
    closed: bool,
    first: EntryDecl,
    p1: FallbackPolicy,
    r1: Result<GeneratedEntry, Error>,
    closed_between: bool,
    second: EntryDecl,
    p2: FallbackPolicy,
    r2: Result<GeneratedEntry, Error>,
    closed_after: bool,
)
    requires
        synthesis(entries, closed, first, p1, r1, closed_between),
        synthesis(entries, closed_between, second, p2, r2, closed_after),
    ensures
        r2 == Err::<GeneratedEntry, Error>(Error::EntryAlreadySynthesized),
        closed_after,
{
}

/// Dispatch is by exact match: the arm selected for `code`, looking from
/// index `from` on, is the first one there that names `code`, and none is
/// selected exactly where no arm there names it.
pub proof fn lemma_selected_arm_is_first_match(arms: Seq<EntryView>, code: u8, from: int)
    requires
        0 <= from <= arms.len(),
    ensures
        match selected_arm(arms, code, from) {
            Some(arm) => exists|i: int|
                from <= i < arms.len() && #[trigger] arms[i] == arm && arm.opcode == code
                    && forall|j: int| from <= j < i ==> (#[trigger] arms[j]).opcode != code,
            None => forall|i: int| from <= i < arms.len() ==> (#[trigger] arms[i]).opcode != code,
        },
    decreases arms.len() - from,
{
    if from < arms.len() {
        if arms[from].opcode == code {
            assert(arms[from] == arms[from]);
        } else {
            lemma_selected_arm_is_first_match(arms, code, from + 1);
            match selected_arm(arms, code, from + 1) {
                Some(arm) => {
                    let i = choose|i: int|
                        from + 1 <= i < arms.len() && #[trigger] arms[i] == arm && arm.opcode
                            == code && forall|j: int|
                            from + 1 <= j < i ==> (#[trigger] arms[j]).opcode != code;
                    assert forall|j: int| from <= j < i implies (#[trigger] arms[j]).opcode
                        != code by {}
                    assert(arms[i] == arm);
                },
                None => {
                    assert forall|i: int| from <= i < arms.len() implies (#[trigger] arms[i]).opcode
                        != code by {}
                },
            }
        }
    }
}

/// Where no opcode is registered twice, the order of the arms does not
/// matter: the opcode of any arm selects that arm.
pub proof fn lemma_registered_opcode_selects_its_arm(arms: Seq<EntryView>, i: int)
    requires
        distinct_opcodes(arms),
        0 <= i < arms.len(),
    ensures
        selected_arm(arms, arms[i].opcode, 0) == Some(arms[i]),
{
    let code = arms[i].opcode;
    lemma_selected_arm_is_first_match(arms, code, 0);
    match selected_arm(arms, code, 0) {
        Some(arm) => {
            let k = choose|k: int|
                0 <= k < arms.len() && #[trigger] arms[k] == arm && arm.opcode == code
                    && forall|j: int| 0 <= j < k ==> (#[trigger] arms[j]).opcode != code;
            if k < i {
                assert(arms[k].opcode != arms[i].opcode);
            } else if i < k {
                assert(arms[i].opcode != arms[k].opcode);
            }
        },
        None => {
            assert(arms[i].opcode != code);
        },
    }
}

} // verus!
