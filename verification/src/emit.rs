//! The source text of what the registrar and the synthesizer produce.
use vstd::prelude::*;
use vstd::string::StringExecFns;
use crate::registrar::{PackedMethod, PackedType};
use crate::registry::Entry;
use crate::synth::{FallbackPolicy, GeneratedEntry};
use crate::text::{append_decimal, decimal_text};

verus! {

/// The first `n` of `items`, in order, each followed by a comma.
pub open spec fn listed(items: Seq<String>, n: int) -> Seq<char>
    decreases n,
{
    if n <= 0 {
        Seq::<char>::empty()
    } else {
        listed(items, n - 1) + items[n - 1]@ + ", "@
    }
}

/// The return type as it stands behind a function's parameters.
pub open spec fn return_text(return_type: Option<String>) -> Seq<char> {
    match return_type {
        Some(t) => " -> "@ + t@,
        None => Seq::<char>::empty(),
    }
}

/// The call that one arm makes: with one argument decoded from the boundary
/// where the handler takes arguments, with none otherwise.
pub open spec fn call_text(arm: Entry) -> Seq<char> {
    if arm.has_args {
        arm.name@ + "(dusk_abi::argument())"@
    } else {
        arm.name@ + "()"@
    }
}

/// The first `n` match arms, in order: opcode, arrow, call, comma.
pub open spec fn arms_text(arms: Seq<Entry>, n: int) -> Seq<char>
    decreases n,
{
    if n <= 0 {
        Seq::<char>::empty()
    } else {
        arms_text(arms, n - 1) + decimal_text(arms[n - 1].opcode as nat) + " => "@ + call_text(
            arms[n - 1],
        ) + ", "@
    }
}

/// The arm for the opcodes that no method registered.
pub open spec fn unmatched_text(policy: FallbackPolicy, result_type: Seq<char>) -> Seq<char> {
    match policy {
        FallbackPolicy::Lenient => "_ => <"@ + result_type + ">::default(), "@,
        FallbackPolicy::Strict => "_ => panic!(\"unregistered opcode\"), "@,
    }
}

fn append_listed(s: &mut String, items: &Vec<String>)
    ensures
        final(s)@ == old(s)@ + listed(items@, items@.len() as int),
{
    let ghost before = s@;
    let mut i: usize = 0;
    assert(s@ =~= before + listed(items@, 0));
    while i < items.len()
        invariant
            i <= items.len(),
            s@ == before + listed(items@, i as int),
        decreases items.len() - i,
    {
        s.append(items[i].as_str());
        s.append(", ");
        i += 1;
        assert(s@ =~= before + listed(items@, i as int));
    }
}

fn append_return(s: &mut String, return_type: &Option<String>)
    ensures
        final(s)@ == old(s)@ + return_text(*return_type),
{
    let ghost before = s@;
    match return_type {
        Some(t) => {
            s.append(" -> ");
            s.append(t.as_str());
        },
        None => {},
    }
    assert(s@ =~= before + return_text(*return_type));
}

fn append_arms(s: &mut String, arms: &Vec<Entry>)
    ensures
        final(s)@ == old(s)@ + arms_text(arms@, arms@.len() as int),
{
    let ghost before = s@;
    let mut i: usize = 0;
    assert(s@ =~= before + arms_text(arms@, 0));
    while i < arms.len()
        invariant
            i <= arms.len(),
            s@ == before + arms_text(arms@, i as int),
        decreases arms.len() - i,
    {
        let arm = &arms[i];
        append_decimal(s, arm.opcode);
        s.append(" => ");
        s.append(arm.name.as_str());
        if arm.has_args {
            s.append("(dusk_abi::argument())");
        } else {
            s.append("()");
        }
        s.append(", ");
        i += 1;
        assert(s@ =~= before + arms_text(arms@, i as int));
    }
}

impl PackedType {
    /// The declaration of the packed type: a tuple struct of the fields in
    /// their order, laid out in that order without padding, and marked as
    /// plain data for the boundary's decoder.
    pub open spec fn source_text(&self) -> Seq<char> {
        "#[repr(C, packed)] pub struct "@ + self.name@ + "("@ + listed(
            self.fields@,
            self.fields@.len() as int,
        ) + "); unsafe impl Pod for "@ + self.name@ + " {}"@
    }

    /// The declaration as source text.
    pub fn render(&self) -> (s: String)
        ensures
            s@ == self.source_text(),
    {
        let mut s = String::from_str("#[repr(C, packed)] pub struct ");
        s.append(self.name.as_str());
        s.append("(");
        append_listed(&mut s, &self.fields);
        s.append("); unsafe impl Pod for ");
        s.append(self.name.as_str());
        s.append(" {}");
        s
    }
}

impl PackedMethod {
    /// The rewritten method: its sole parameter is the packed type,
    /// destructured into the declared identifiers; the body is unchanged.
    pub open spec fn source_text(&self) -> Seq<char> {
        self.visibility@ + " fn "@ + self.name@ + "("@ + self.argument_type@ + "("@ + listed(
            self.bindings@,
            self.bindings@.len() as int,
        ) + "): "@ + self.argument_type@ + ")"@ + return_text(self.return_type) + " { "@
            + self.body@ + " }"@
    }

    /// The method as source text.
    pub fn render(&self) -> (s: String)
        ensures
            s@ == self.source_text(),
    {
        let mut s = self.visibility.clone();
        s.append(" fn ");
        s.append(self.name.as_str());
        s.append("(");
        s.append(self.argument_type.as_str());
        s.append("(");
        append_listed(&mut s, &self.bindings);
        s.append("): ");
        s.append(self.argument_type.as_str());
        s.append(")");
        append_return(&mut s, &self.return_type);
        s.append(" { ");
        s.append(self.body.as_str());
        s.append(" }");
        s
    }
}

impl GeneratedEntry {
    /// The entry point as source text: one function, exported as `call`.
    /// Without arms it holds the declaration's own statements and nothing
    /// else. With arms it runs those statements as a preamble, reads one
    /// opcode, matches it against the arms in their order, and sends the
    /// value of the chosen call.
    pub open spec fn source_text(&self) -> Seq<char> {
        match self {
            GeneratedEntry::Direct { return_type, body } => "#[no_mangle] pub fn call()"@
                + return_text(*return_type) + " { "@ + body@ + " }"@,
            GeneratedEntry::Dispatch { return_type, preamble, result_type, arms, unmatched } =>
                "#[no_mangle] pub fn call()"@ + return_text(*return_type) + " { { "@ + preamble@
                    + " } let code: u8 = dusk_abi::opcode::<u8>(); dusk_abi::ret::<"@
                    + result_type@ + ">(match code { "@ + arms_text(arms@, arms@.len() as int)
                    + unmatched_text(*unmatched, result_type@) + "}); }"@,
        }
    }

    /// The entry point as source text.
    pub fn render(&self) -> (s: String)
        ensures
            s@ == self.source_text(),
    {
        let mut s = String::from_str("#[no_mangle] pub fn call()");
        match self {
            GeneratedEntry::Direct { return_type, body } => {
                append_return(&mut s, return_type);
                s.append(" { ");
                s.append(body.as_str());
                s.append(" }");
            },
            GeneratedEntry::Dispatch { return_type, preamble, result_type, arms, unmatched } => {
                append_return(&mut s, return_type);
                s.append(" { { ");
                s.append(preamble.as_str());
                s.append(" } let code: u8 = dusk_abi::opcode::<u8>(); dusk_abi::ret::<");
                s.append(result_type.as_str());
                s.append(">(match code { ");
                append_arms(&mut s, arms);
                let ghost head = s@;
                match unmatched {
                    FallbackPolicy::Lenient => {
                        s.append("_ => <");
                        s.append(result_type.as_str());
                        s.append(">::default(), ");
                    },
                    FallbackPolicy::Strict => {
                        s.append("_ => panic!(\"unregistered opcode\"), ");
                    },
                }
                assert(s@ =~= head + unmatched_text(*unmatched, result_type@));
                s.append("}); }");
            },
        }
        s
    }
}

} // verus!
