//! The method registrar: validates one method declaration, derives its packed
//! argument type and records the method in the registry.
use vstd::prelude::*;
use vstd::string::StringExecFns;
use crate::decl::{option_text, text_is, AttributeArg, Binding, Literal, MethodDecl, Param};
use crate::error::Error;
use crate::literal::{literal_opcode, read_opcode_literal};
use crate::registry::{has_opcode, EntryView, Registry};

verus! {

/// The packed argument type of a method: the types of its parameters, in the
/// order of their declaration. Its layout is that order, without gaps.
#[derive(Debug, Clone, PartialEq, Eq)]
pub struct PackedType {
    pub name: String,
    pub fields: Vec<String>,
}

/// A method rewritten to take its packed argument type as sole parameter,
/// destructured into `bindings` before the body runs.
#[derive(Debug, Clone, PartialEq, Eq)]
pub struct PackedMethod {
    pub name: String,
    pub visibility: String,
    pub return_type: Option<String>,
    pub argument_type: String,
    pub bindings: Vec<String>,
    pub body: String,
}

/// What takes the place of a method declaration.
#[derive(Debug, Clone, PartialEq, Eq)]
pub enum Transformed {
    /// The method takes no arguments: the declaration as it was.
    Unchanged(MethodDecl),
    /// The method takes arguments: the packed type and the rewritten method.
    Packed { packed: PackedType, method: PackedMethod },
}

/// The opcode that a configuration declares: it must hold exactly one
/// argument, `opcode = <integer literal>`, whose value fits in eight bits.
pub open spec fn attribute_opcode(attrs: Seq<AttributeArg>) -> Option<u8> {
    if attrs.len() != 1 {
        None
    } else {
        match attrs[0] {
            AttributeArg::NameValue { key, value: Literal::Int(text) } => if key@ == "opcode"@ {
                literal_opcode(text@)
            } else {
                None
            },
            _ => None,
        }
    }
}

/// Whether `p` refers to the method's own receiver.
pub open spec fn is_self_reference(p: Param) -> bool {
    match p.binding {
        Binding::Receiver => true,
        Binding::Ident(name) => name@ == "self"@,
        Binding::Pattern => false,
    }
}

/// The index of the first parameter that is packed: a leading self-reference
/// is skipped.
pub open spec fn packed_start(params: Seq<Param>) -> int {
    if params.len() > 0 && is_self_reference(params[0]) {
        1
    } else {
        0
    }
}

/// The parameters that are packed, in the order of their declaration.
pub open spec fn packed_params(params: Seq<Param>) -> Seq<Param> {
    params.subrange(packed_start(params), params.len() as int)
}

/// Every parameter of `params` is bound by a simple identifier.
pub open spec fn simple_bindings(params: Seq<Param>) -> bool {
    forall|i: int| 0 <= i < params.len() ==> (#[trigger] params[i]).binding is Ident
}

/// `packed` and `method` are the packing of `decl`: one field and one binding
/// for each packed parameter, in the order of declaration, so that
/// destructuring a value of the packed type binds each declared identifier to
/// the field of its own type; everything else is carried over.
pub open spec fn is_packing_of(decl: MethodDecl, packed: PackedType, method: PackedMethod) -> bool {
    let rest = packed_params(decl.params@);
    &&& packed.name@ == decl.name@ + "_args"@
    &&& packed.fields@.len() == rest.len()
    &&& forall|i: int| 0 <= i < rest.len() ==> (#[trigger] packed.fields@[i])@ == rest[i].ty@
    &&& method.name@ == decl.name@
    &&& method.visibility@ == decl.visibility@
    &&& option_text(method.return_type) == option_text(decl.return_type)
    &&& method.argument_type@ == packed.name@
    &&& method.bindings@.len() == rest.len()
    &&& forall|i: int|
        0 <= i < rest.len() ==> rest[i].binding == Binding::Ident(#[trigger] method.bindings@[i])
    &&& method.body@ == decl.body@
}

/// `t` is what takes the place of `decl`: the declaration itself where
/// nothing is packed, its packing otherwise.
pub open spec fn is_transform_of(decl: MethodDecl, t: Transformed) -> bool {
    if packed_params(decl.params@).len() == 0 {
        t == Transformed::Unchanged(decl)
    } else {
        match t {
            Transformed::Packed { packed, method } => is_packing_of(decl, packed, method),
            Transformed::Unchanged(_) => false,
        }
    }
}

/// What registering `decl` under `opcode` gives, on a registry that holds
/// `before` and whose phase flag is `closed`: the result `r` and the entries
/// `after`. Every failure leaves the entries as they were.
pub open spec fn registration(
    before: Seq<EntryView>,
    closed: bool,
    decl: MethodDecl,
    opcode: u8,
    r: Result<Transformed, Error>,
    after: Seq<EntryView>,
) -> bool {
    let rest = packed_params(decl.params@);
    if closed {
        r == Err::<Transformed, Error>(Error::RegistrationAfterClose) && after == before
    } else if !simple_bindings(rest) {
        &&& r matches Err(Error::UnsupportedParameterPattern { method })
        &&& method@ == decl.name@
        &&& after == before
    } else if has_opcode(before, opcode) {
        r == Err::<Transformed, Error>(Error::DuplicateOpcode { opcode }) && after == before
    } else {
        &&& r matches Ok(t)
        &&& is_transform_of(decl, t)
        &&& after == before.push(
            EntryView { opcode, name: decl.name@, has_args: rest.len() > 0 },
        )
    }
}

/// Reads the opcode from a method's configuration.
pub fn declared_opcode(attrs: &Vec<AttributeArg>) -> (r: Result<u8, Error>)
    ensures
        r == match attribute_opcode(attrs@) {
            Some(opcode) => Ok::<u8, Error>(opcode),
            None => Err::<u8, Error>(Error::MalformedAttribute),
        },
{
    if attrs.len() != 1 {
        return Err(Error::MalformedAttribute);
    }
    match &attrs[0] {
        AttributeArg::NameValue { key, value: Literal::Int(text) } => {
            if !text_is(key, "opcode") {
                return Err(Error::MalformedAttribute);
            }
            match read_opcode_literal(text.as_str()) {
                Some(opcode) => Ok(opcode),
                None => Err(Error::MalformedAttribute),
            }
        },
        _ => Err(Error::MalformedAttribute),
    }
}

/// Whether `p` refers to the method's own receiver.
pub fn refers_to_self(p: &Param) -> (b: bool)
    ensures
        b == is_self_reference(*p),
{
    match &p.binding {
        Binding::Receiver => true,
        Binding::Ident(name) => text_is(name, "self"),
        Binding::Pattern => false,
    }
}

/// Registers `decl` under `opcode` and gives what takes its place in the
/// source. Fails, leaving the registry as it was, where the registry is
/// closed, a packed parameter is not bound by a simple identifier, or the
/// opcode is taken.
pub fn register_method(registry: &mut Registry, decl: MethodDecl, opcode: u8) -> (r: Result<
    Transformed,
    Error,
>)
    requires
        old(registry).wf(),
    ensures
        final(registry).wf(),
        final(registry).phase_closed() == old(registry).phase_closed(),
        registration(
            old(registry).entries(),
            old(registry).phase_closed(),
            decl,
            opcode,
            r,
            final(registry).entries(),
        ),
{
    if registry.is_closed() {
        return Err(Error::RegistrationAfterClose);
    }
    let ghost rest = packed_params(decl.params@);
    let n: usize = decl.params.len();
    let start: usize = if n > 0 && refers_to_self(&decl.params[0]) {
        1
    } else {
        0
    };
    let mut fields: Vec<String> = Vec::new();
    let mut bindings: Vec<String> = Vec::new();
    let mut i: usize = start;
    while i < n
        invariant
            n == decl.params@.len(),
            start == packed_start(decl.params@),
            rest == packed_params(decl.params@),
            start <= i <= n,
            rest.len() == n - start,
            *registry == *old(registry),
            old(registry).wf(),
            !old(registry).phase_closed(),
            fields@.len() == i - start,
            forall|k: int| 0 <= k < i - start ==> (#[trigger] rest[k]).binding is Ident,
            bindings@.len() == i - start,
            forall|k: int| 0 <= k < i - start ==> (#[trigger] fields@[k])@ == rest[k].ty@,
            forall|k: int|
                0 <= k < i - start ==> rest[k].binding == Binding::Ident(#[trigger] bindings@[k]),
        decreases n - i,
    {
        let p = &decl.params[i];
        assert(rest[i - start] == decl.params@[i as int]);
        match &p.binding {
            Binding::Ident(name) => {
                bindings.push(name.clone());
                fields.push(p.ty.clone());
            },
            _ => {
                assert(!(rest[i - start].binding is Ident));
                return Err(Error::UnsupportedParameterPattern { method: decl.name.clone() });
            },
        }
        i += 1;
    }
    assert(simple_bindings(rest));
    let has_args = start < n;
    match registry.register(opcode, decl.name.clone(), has_args) {
        Err(e) => Err(e),
        Ok(()) => {
            if !has_args {
                Ok(Transformed::Unchanged(decl))
            } else {
                let mut packed_name = decl.name.clone();
                packed_name.append("_args");
                let argument_type = packed_name.clone();
                let packed = PackedType { name: packed_name, fields };
                let method = PackedMethod {
                    name: decl.name,
                    visibility: decl.visibility,
                    return_type: decl.return_type,
                    argument_type,
                    bindings,
                    body: decl.body,
                };
                Ok(Transformed::Packed { packed, method })
            }
        },
    }
}

/// Registers the method `decl`, whose configuration is `attrs`, and gives what
/// takes its place in the source. The registry must be open and the
/// configuration must declare an opcode; the rest is [`register_method`].
pub fn method(registry: &mut Registry, attrs: &Vec<AttributeArg>, decl: MethodDecl) -> (r: Result<
    Transformed,
    Error,
>)
    requires
        old(registry).wf(),
    ensures
        final(registry).wf(),
        final(registry).phase_closed() == old(registry).phase_closed(),
        old(registry).phase_closed() ==> r == Err::<Transformed, Error>(
            Error::RegistrationAfterClose,
        ) && final(registry).entries() == old(registry).entries(),
        !old(registry).phase_closed() ==> match attribute_opcode(attrs@) {
            None => r == Err::<Transformed, Error>(Error::MalformedAttribute)
                && final(registry).entries() == old(registry).entries(),
            Some(opcode) => registration(
                old(registry).entries(),
                false,
                decl,
                opcode,
                r,
                final(registry).entries(),
            ),
        },
{
    if registry.is_closed() {
        return Err(Error::RegistrationAfterClose);
    }
    match declared_opcode(attrs) {
        Err(e) => Err(e),
        Ok(opcode) => register_method(registry, decl, opcode),
    }
}

} // verus!
