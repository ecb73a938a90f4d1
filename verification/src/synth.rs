//! The dispatch synthesizer: closes the registry and produces the single
//! entry point that switches over every registered handler.
use vstd::prelude::*;
use vstd::string::StringExecFns;
use crate::decl::EntryDecl;
use crate::error::Error;
use crate::registry::{entry_views, Entry, EntryView, Registry};

verus! {

/// What the entry point does with an opcode that no method registered.
#[derive(Debug, Clone, Copy, PartialEq, Eq, Structural)]
pub enum FallbackPolicy {
    /// Send the default value of the result type. No error is signalled.
    Lenient,
    /// Fail: the opcode is reported across the boundary as an error.
    Strict,
}

/// The synthesized entry point.
#[derive(Debug, Clone, PartialEq, Eq)]
pub enum GeneratedEntry {
    /// No method is registered: the entry point's own statements, and no
    /// interaction with the call boundary.
    Direct { return_type: Option<String>, body: String },
    /// The entry point's own statements as a preamble, then one opcode read
    /// from the boundary and matched against `arms`, which holds the registry
    /// as it was at synthesis. The value of the chosen call, of type
    /// `result_type`, is sent through the boundary. What an opcode that no
    /// arm names gives is up to `unmatched`.
    Dispatch {
        return_type: Option<String>,
        preamble: String,
        result_type: String,
        arms: Vec<Entry>,
        unmatched: FallbackPolicy,
    },
}

/// What the entry point does once its own statements have run.
#[derive(Debug, Clone, PartialEq, Eq)]
pub enum Action {
    /// Nothing more: no opcode is read.
    Finish,
    /// Call `handler`, with one argument decoded from the boundary where
    /// `decode_argument` holds and with none otherwise, and send the result.
    Call { handler: String, decode_argument: bool },
    /// No handler has the opcode and the entry point is lenient: send the
    /// default value of the result type.
    Fallback,
    /// No handler has the opcode and the entry point is strict: fail.
    Reject,
}

/// The first of `arms`, from index `from` on, that names `code`.
pub open spec fn selected_arm(arms: Seq<EntryView>, code: u8, from: int) -> Option<EntryView>
    decreases arms.len() - from,
{
    if from < 0 || from >= arms.len() {
        None
    } else if arms[from].opcode == code {
        Some(arms[from])
    } else {
        selected_arm(arms, code, from + 1)
    }
}

/// The type of the value that the entry point sends: the declared return
/// type, or `i32` where none is declared.
pub open spec fn result_type_text(return_type: Option<String>) -> Seq<char> {
    match return_type {
        Some(t) => t@,
        None => "i32"@,
    }
}

/// `g` is the entry point synthesized from `entry` over the registered
/// `entries`, with `policy` for the opcodes that none of them names.
pub open spec fn is_entry_for(
    entries: Seq<EntryView>,
    entry: EntryDecl,
    policy: FallbackPolicy,
    g: GeneratedEntry,
) -> bool {
    if entries.len() == 0 {
        g == (GeneratedEntry::Direct { return_type: entry.return_type, body: entry.body })
    } else {
        match g {
            GeneratedEntry::Dispatch { return_type, preamble, result_type, arms, unmatched } => {
                &&& unmatched == policy
                &&& return_type == entry.return_type
                &&& preamble == entry.body
                &&& result_type@ == result_type_text(entry.return_type)
                &&& entry_views(arms@) == entries
            },
            GeneratedEntry::Direct { .. } => false,
        }
    }
}

/// What synthesizing the entry point from `entry` under `policy` gives, on a
/// registry that holds `entries` and whose phase flag is `closed`: the result
/// `r` and the phase flag `closed_after`.
pub open spec fn synthesis(
    entries: Seq<EntryView>,
    closed: bool,
    entry: EntryDecl,
    policy: FallbackPolicy,
    r: Result<GeneratedEntry, Error>,
    closed_after: bool,
) -> bool {
    &&& closed_after
    &&& if closed {
        r == Err::<GeneratedEntry, Error>(Error::EntryAlreadySynthesized)
    } else {
        r matches Ok(g) && is_entry_for(entries, entry, policy, g)
    }
}

impl GeneratedEntry {
    /// Whether the entry point reads an opcode from the boundary.
    pub fn reads_opcode(&self) -> (b: bool)
        ensures
            b == (self is Dispatch),
    {
        match self {
            GeneratedEntry::Direct { .. } => false,
            GeneratedEntry::Dispatch { .. } => true,
        }
    }

    /// What the entry point does with the opcode `code`.
    pub open spec fn action(&self, code: u8) -> Option<EntryView> {
        match self {
            GeneratedEntry::Direct { .. } => None,
            GeneratedEntry::Dispatch { arms, .. } => selected_arm(entry_views(arms@), code, 0),
        }
    }

    /// What the entry point does once its own statements have run and, where
    /// it reads an opcode, the boundary has handed it `code`: the first arm
    /// that names `code` is called; where there is none, a lenient entry point
    /// sends the default value and a strict one fails.
    pub fn dispatch(&self, code: u8) -> (a: Action)
        ensures
            match a {
                Action::Finish => self is Direct,
                Action::Call { handler, decode_argument } => self is Dispatch && self.action(code)
                    == Some(
                    EntryView { opcode: code, name: handler@, has_args: decode_argument },
                ),
                Action::Fallback => self is Dispatch && self.action(code).is_none()
                    && self->unmatched == FallbackPolicy::Lenient,
                Action::Reject => self is Dispatch && self.action(code).is_none()
                    && self->unmatched == FallbackPolicy::Strict,
            },
    {
        match self {
            GeneratedEntry::Direct { .. } => Action::Finish,
            GeneratedEntry::Dispatch { arms, unmatched, .. } => {
                let ghost views = entry_views(arms@);
                let mut i: usize = 0;
                while i < arms.len()
                    invariant
                        i <= arms.len(),
                        self is Dispatch,
                        self->arms@ == arms@,
                        self->unmatched == *unmatched,
                        views == entry_views(arms@),
                        selected_arm(views, code, 0) == selected_arm(views, code, i as int),
                    decreases arms.len() - i,
                {
                    let arm = &arms[i];
                    assert(views[i as int] == arm@);
                    if arm.opcode == code {
                        return Action::Call {
                            handler: arm.name.clone(),
                            decode_argument: arm.has_args,
                        };
                    }
                    i += 1;
                }
                match unmatched {
                    FallbackPolicy::Lenient => Action::Fallback,
                    FallbackPolicy::Strict => Action::Reject,
                }
            },
        }
    }
}

/// Synthesizes the entry point from `entry` and closes the registry. Fails
/// where the registry is closed already: the entry point is synthesized at
/// most once. With no method registered the entry point is the declaration's
/// own statements; otherwise it dispatches over a snapshot of the registry,
/// with `policy` for the opcodes that no method registered.
pub fn synthesize(registry: &mut Registry, entry: EntryDecl, policy: FallbackPolicy) -> (r: Result<
    GeneratedEntry,
    Error,
>)
    requires
        old(registry).wf(),
    ensures
        final(registry).wf(),
        final(registry).entries() == old(registry).entries(),
        synthesis(
            old(registry).entries(),
            old(registry).phase_closed(),
            entry,
            policy,
            r,
            final(registry).phase_closed(),
        ),
{
    if registry.close() {
        return Err(Error::EntryAlreadySynthesized);
    }
    let arms = registry.snapshot();
    if arms.len() == 0 {
        Ok(GeneratedEntry::Direct { return_type: entry.return_type, body: entry.body })
    } else {
        let result_type = match &entry.return_type {
            Some(t) => t.clone(),
            None => String::from_str("i32"),
        };
        Ok(
            GeneratedEntry::Dispatch {
                return_type: entry.return_type,
                preamble: entry.body,
                result_type,
                arms,
                unmatched: policy,
            },
        )
    }
}

/// Synthesizes the lenient entry point: an opcode that no method registered
/// gives the default value of the result type, and no error.
pub fn main(registry: &mut Registry, entry: EntryDecl) -> (r: Result<GeneratedEntry, Error>)
    requires
        old(registry).wf(),
    ensures
        final(registry).wf(),
        final(registry).entries() == old(registry).entries(),
        synthesis(
            old(registry).entries(),
            old(registry).phase_closed(),
            entry,
            FallbackPolicy::Lenient,
            r,
            final(registry).phase_closed(),
        ),
{
    synthesize(registry, entry, FallbackPolicy::Lenient)
}

} // verus!
