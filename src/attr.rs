//! An attribute of an element, and the protocol by which a change of its
//! value is reported to the element that owns it.
use crate::atom::{atom_as_str, atom_text};
use crate::tokens::html_tokens;
use crate::value::{atom_texts, u32_or, AttrValue, ValueModel};
use string_cache::DefaultAtom;
use vstd::prelude::*;

verus! {

/// Whether a value is set on an attribute for the first time, or replaces an
/// earlier one.
#[derive(PartialEq, Eq, Structural, Clone, Copy, Debug)]
pub enum AttrSettingType {
    FirstSetAttr,
    ReplacedAttr,
}

/// What an attribute stands for.
pub struct AttrModel {
    pub local_name: Seq<char>,
    pub value: ValueModel,
    pub name: Seq<char>,
    pub namespace: Seq<char>,
    pub prefix: Option<Seq<char>>,
    pub owner: u64,
}

impl AttrModel {
    /// Whether the attribute is in the null namespace.
    pub open spec fn in_null_namespace(self) -> bool {
        self.namespace.len() == 0
    }

    /// The same attribute holding `value`.
    pub open spec fn with_value(self, value: ValueModel) -> AttrModel {
        AttrModel { value, ..self }
    }
}

/// A call of one of the owner's hooks, with the attribute as the hook saw it.
pub enum HookEvent {
    BeforeRemove(AttrModel),
    AfterSet(AttrModel),
}

/// The element that owns an attribute, as far as a change of value concerns
/// it. Each kind of element reads attribute text in its own way and may react
/// before a value is replaced and after one is set.
pub trait AttrObserver {
    /// The hook calls this element has received, oldest first.
    spec fn hook_log(&self) -> Seq<HookEvent>;

    /// The value this element reads from `text` for the attribute
    /// `local_name` in `namespace`.
    spec fn parsed(&self, namespace: Seq<char>, local_name: Seq<char>, text: Seq<char>) -> ValueModel;

    /// The value that `value` gives for the attribute `local_name` in
    /// `namespace`; its text is `value` itself.
    fn parse_attribute(&self, namespace: &DefaultAtom, local_name: &DefaultAtom, value: String) -> (r:
        AttrValue)
        ensures
            r@ == self.parsed(atom_text(*namespace), atom_text(*local_name), value@),
            r@.text() == value@,
    ;

    /// Runs before a value of a null-namespace attribute is replaced.
    fn before_remove_attr(&mut self, attr: &Attr)
        ensures
            final(self).hook_log() == old(self).hook_log().push(HookEvent::BeforeRemove(attr@)),
    ;

    /// Runs after a value of a null-namespace attribute is set.
    fn after_set_attr(&mut self, attr: &Attr)
        ensures
            final(self).hook_log() == old(self).hook_log().push(HookEvent::AfterSet(attr@)),
    ;
}

/// An attribute: its names, its namespace and prefix, and its value.
pub struct Attr {
    local_name: DefaultAtom,
    value: AttrValue,
    name: DefaultAtom,
    namespace: DefaultAtom,
    prefix: Option<String>,
    /// The element that holds this attribute, by its identifier.
    owner: u64,
}

/// The view of an optional string.
pub open spec fn opt_view(s: Option<String>) -> Option<Seq<char>> {
    match s {
        Some(t) => Some(t@),
        None => None,
    }
}

impl View for Attr {
    type V = AttrModel;

    closed spec fn view(&self) -> AttrModel {
        AttrModel {
            local_name: atom_text(self.local_name),
            value: self.value@,
            name: atom_text(self.name),
            namespace: atom_text(self.namespace),
            prefix: opt_view(self.prefix),
            owner: self.owner,
        }
    }
}

/// What the developer tools are told of an attribute.
pub struct AttrInfo {
    pub namespace: String,
    pub name: String,
    pub value: String,
}

fn copy_prefix(p: &Option<String>) -> (r: Option<String>)
    ensures
        opt_view(r) == opt_view(*p),
{
    match p {
        Some(s) => Some(s.clone()),
        None => None,
    }
}

impl Attr {
    /// An attribute with the given names, value, namespace and prefix, held
    /// by the element `owner`.
    pub fn new(
        local_name: DefaultAtom,
        value: AttrValue,
        name: DefaultAtom,
        namespace: DefaultAtom,
        prefix: Option<String>,
        owner: u64,
    ) -> (r: Attr)
        ensures
            r@ == (AttrModel {
                local_name: atom_text(local_name),
                value: value@,
                name: atom_text(name),
                namespace: atom_text(namespace),
                prefix: opt_view(prefix),
                owner,
            }),
    {
        Attr { local_name, value, name, namespace, prefix, owner }
    }

    /// The element that holds this attribute; there always is one.
    #[allow(non_snake_case)]
    pub fn GetOwnerElement(&self) -> (r: Option<u64>)
        ensures
            r == Some(self@.owner),
    {
        Some(self.owner)
    }

    /// The qualified name.
    pub fn name(&self) -> (r: &DefaultAtom)
        ensures
            atom_text(*r) == self@.name,
    {
        &self.name
    }

    /// The namespace; empty for the null namespace.
    pub fn namespace(&self) -> (r: &DefaultAtom)
        ensures
            atom_text(*r) == self@.namespace,
    {
        &self.namespace
    }

    /// The namespace prefix, if any.
    pub fn prefix(&self) -> (r: &Option<String>)
        ensures
            opt_view(*r) == self@.prefix,
    {
        &self.prefix
    }

    /// The name without its prefix, as text.
    #[allow(non_snake_case)]
    pub fn LocalName(&self) -> (r: String)
        ensures
            r@ == self@.local_name,
    {
        atom_as_str(&self.local_name).to_owned()
    }

    /// The textual form of the value.
    #[allow(non_snake_case)]
    pub fn Value(&self) -> (r: String)
        ensures
            r@ == self@.value.text(),
    {
        self.value.as_text().to_owned()
    }

    /// Replaces the value with the one that the owner reads from `value`.
    #[allow(non_snake_case)]
    pub fn SetValue<O: AttrObserver>(&mut self, value: String, owner: &mut O)
        ensures
            final(self)@ == old(self)@.with_value(
                old(owner).parsed(old(self)@.namespace, old(self)@.local_name, value@),
            ),
            final(self)@.value.text() == value@,
            old(self)@.in_null_namespace() ==> final(owner).hook_log() == old(owner).hook_log() + seq![
                HookEvent::BeforeRemove(old(self)@),
                HookEvent::AfterSet(final(self)@),
            ],
            !old(self)@.in_null_namespace() ==> final(owner).hook_log() == old(owner).hook_log(),
    {
        let parsed = owner.parse_attribute(&self.namespace, &self.local_name, value);
        self.set_value(AttrSettingType::ReplacedAttr, parsed, owner);
    }

    /// The same as `Value`.
    #[allow(non_snake_case)]
    pub fn TextContent(&self) -> (r: String)
        ensures
            r@ == self@.value.text(),
    {
        self.Value()
    }

    /// The same as `SetValue`.
    #[allow(non_snake_case)]
    pub fn SetTextContent<O: AttrObserver>(&mut self, value: String, owner: &mut O)
        ensures
            final(self)@ == old(self)@.with_value(
                old(owner).parsed(old(self)@.namespace, old(self)@.local_name, value@),
            ),
            final(self)@.value.text() == value@,
            old(self)@.in_null_namespace() ==> final(owner).hook_log() == old(owner).hook_log() + seq![
                HookEvent::BeforeRemove(old(self)@),
                HookEvent::AfterSet(final(self)@),
            ],
            !old(self)@.in_null_namespace() ==> final(owner).hook_log() == old(owner).hook_log(),
    {
        self.SetValue(value, owner)
    }

    /// The qualified name, as text.
    #[allow(non_snake_case)]
    pub fn Name(&self) -> (r: String)
        ensures
            r@ == self@.name,
    {
        atom_as_str(&self.name).to_owned()
    }

    /// The namespace URI; `None` for the null namespace.
    #[allow(non_snake_case)]
    pub fn GetNamespaceURI(&self) -> (r: Option<String>)
        ensures
            match r {
                Some(u) => !self@.in_null_namespace() && u@ == self@.namespace,
                None => self@.in_null_namespace(),
            },
    {
        let url = atom_as_str(&self.namespace);
        if url.is_empty() {
            None
        } else {
            Some(url.to_owned())
        }
    }

    /// The namespace prefix, if any.
    #[allow(non_snake_case)]
    pub fn GetPrefix(&self) -> (r: Option<String>)
        ensures
            opt_view(r) == self@.prefix,
    {
        copy_prefix(&self.prefix)
    }

    /// Always true: an attribute here never stands for a default value.
    #[allow(non_snake_case)]
    pub fn Specified(&self) -> (r: bool)
        ensures
            r,
    {
        true
    }

    /// A copy of the attribute that owns its own data, to hand to a reader
    /// that must not see later changes.
    pub fn snapshot(&self) -> (r: Attr)
        ensures
            r@ == self@,
    {
        Attr {
            local_name: self.local_name.clone(),
            value: self.value.duplicate(),
            name: self.name.clone(),
            namespace: self.namespace.clone(),
            prefix: copy_prefix(&self.prefix),
            owner: self.owner,
        }
    }
}

/// What the owning side reads of an attribute and how it changes its value.
pub trait AttrHelpers: View<V = AttrModel> + Sized {
    /// The name without its prefix.
    fn local_name(&self) -> (r: &DefaultAtom)
        ensures
            atom_text(*r) == self@.local_name,
    ;

    /// The current value. The borrow ends before the next change of value.
    fn value(&self) -> (r: &AttrValue)
        ensures
            r@ == self@.value,
    ;

    /// Puts `value` in place. For an attribute in the null namespace the
    /// owner's `before_remove_attr` sees the old state first when a value is
    /// replaced, and its `after_set_attr` sees the new state in every case. An
    /// attribute in another namespace calls no hook.
    fn set_value<O: AttrObserver>(&mut self, set_type: AttrSettingType, value: AttrValue, owner: &mut O)
        ensures
            final(self)@ == old(self)@.with_value(value@),
            final(self)@.value.text() == value@.text(),
            old(self)@.in_null_namespace() && set_type == AttrSettingType::ReplacedAttr
                ==> final(owner).hook_log() == old(owner).hook_log() + seq![
                HookEvent::BeforeRemove(old(self)@),
                HookEvent::AfterSet(final(self)@),
            ],
            old(self)@.in_null_namespace() && set_type == AttrSettingType::FirstSetAttr
                ==> final(owner).hook_log() == old(owner).hook_log() + seq![HookEvent::AfterSet(final(self)@)],
            !old(self)@.in_null_namespace() ==> final(owner).hook_log() == old(owner).hook_log(),
    ;

    /// The namespace, name and value, for the developer tools.
    fn summarize(&self) -> (r: AttrInfo)
        ensures
            r.namespace@ == self@.namespace,
            r.name@ == self@.name,
            r.value@ == self@.value.text(),
    ;
}

impl AttrHelpers for Attr {
    fn local_name(&self) -> &DefaultAtom {
        &self.local_name
    }

    fn value(&self) -> &AttrValue {
        &self.value
    }

    fn set_value<O: AttrObserver>(&mut self, set_type: AttrSettingType, value: AttrValue, owner: &mut O) {
        let namespace_is_null = atom_as_str(&self.namespace).is_empty();
        let ghost log0 = owner.hook_log();
        let ghost before = self@;
        if set_type == AttrSettingType::ReplacedAttr && namespace_is_null {
            owner.before_remove_attr(self);
        }
        self.value = value;
        if namespace_is_null {
            owner.after_set_attr(self);
        }
        proof {
            if namespace_is_null && set_type == AttrSettingType::ReplacedAttr {
                assert(owner.hook_log() =~= log0 + seq![
                    HookEvent::BeforeRemove(before),
                    HookEvent::AfterSet(self@),
                ]);
            } else if namespace_is_null {
                assert(owner.hook_log() =~= log0 + seq![HookEvent::AfterSet(self@)]);
            }
        }
    }

    fn summarize(&self) -> AttrInfo {
        AttrInfo {
            namespace: atom_as_str(&self.namespace).to_owned(),
            name: self.Name(),
            value: self.Value(),
        }
    }
}

/// What the layout reader reads of an attribute. Each result borrows the
/// attribute, so no change of value can happen while it is held.
pub trait AttrHelpersForLayout: View<V = AttrModel> + Sized {
    /// The textual form of the value, for the layout reader. The borrow keeps
    /// any change of value out for as long as the text is held.
    fn value_ref_forever(&self) -> (r: &str)
        ensures
            r@ == self@.value.text(),
    ;

    /// The atom of an atom value, for the layout reader; `None` for the other
    /// kinds.
    fn value_atom_forever(&self) -> (r: Option<DefaultAtom>)
        ensures
            match r {
                Some(a) => self@.value == ValueModel::Symbol(atom_text(a)),
                None => !(self@.value is Symbol),
            },
    ;

    /// The tokens of a token-list value, for the layout reader; `None` for the
    /// other kinds.
    fn value_tokens_forever(&self) -> (r: Option<&[DefaultAtom]>)
        ensures
            match r {
                Some(t) => self@.value.tokens() == Some(atom_texts(t@)),
                None => self@.value.tokens() is None,
            },
    ;

    /// The local name, for the layout reader.
    fn local_name_atom_forever(&self) -> (r: DefaultAtom)
        ensures
            atom_text(r) == self@.local_name,
    ;
}

impl AttrHelpersForLayout for Attr {
    fn value_ref_forever(&self) -> &str {
        self.value.as_text()
    }

    fn value_atom_forever(&self) -> Option<DefaultAtom> {
        match &self.value {
            AttrValue::AtomAttrValue(val) => Some(val.clone()),
            _ => None,
        }
    }

    fn value_tokens_forever(&self) -> Option<&[DefaultAtom]> {
        self.value.tokens()
    }

    fn local_name_atom_forever(&self) -> DefaultAtom {
        self.local_name.clone()
    }
}

/// Which hook of the owner was called.
#[derive(PartialEq, Eq, Structural, Clone, Copy, Debug)]
pub enum HookKind {
    BeforeRemove,
    AfterSet,
}

/// One hook call: its kind and a copy of the attribute as the hook saw it.
pub struct HookRecord {
    pub kind: HookKind,
    pub attr: Attr,
}

impl HookRecord {
    pub open spec fn event(self) -> HookEvent {
        match self.kind {
            HookKind::BeforeRemove => HookEvent::BeforeRemove(self.attr@),
            HookKind::AfterSet => HookEvent::AfterSet(self.attr@),
        }
    }
}

/// How an owner reads attribute text.
#[derive(PartialEq, Eq, Structural, Clone, Copy, Debug)]
pub enum ValueKind {
    /// As plain text.
    Text,
    /// As a whitespace-separated token list.
    TokenList,
    /// As an unsigned number, with the given default.
    UnsignedInt(u32),
    /// As an atom.
    Symbol,
}

/// The value that `kind` reads from `text`.
pub open spec fn read_as(kind: ValueKind, text: Seq<char>) -> ValueModel {
    match kind {
        ValueKind::Text => ValueModel::Text(text),
        ValueKind::TokenList => ValueModel::TokenList(text, html_tokens(text)),
        ValueKind::UnsignedInt(default) => ValueModel::UInt(text, u32_or(text, default)),
        ValueKind::Symbol => ValueModel::Symbol(text),
    }
}

/// An owner that reads every attribute in one way and keeps a copy of the
/// attribute at each hook call, in order.
pub struct HookRecorder {
    pub reading: ValueKind,
    pub records: Vec<HookRecord>,
}

impl HookRecorder {
    /// A recorder that reads attributes as plain text and has seen no hook
    /// call.
    pub fn new() -> (r: HookRecorder)
        ensures
            r.reading == ValueKind::Text,
            r.hook_log() == Seq::<HookEvent>::empty(),
    {
        HookRecorder::reading(ValueKind::Text)
    }

    /// A recorder that reads attributes as `kind` says and has seen no hook
    /// call.
    pub fn reading(kind: ValueKind) -> (r: HookRecorder)
        ensures
            r.reading == kind,
            r.hook_log() == Seq::<HookEvent>::empty(),
    {
        let r = HookRecorder { reading: kind, records: Vec::new() };
        assert(r.hook_log() =~= Seq::<HookEvent>::empty());
        r
    }
}

impl AttrObserver for HookRecorder {
    open spec fn hook_log(&self) -> Seq<HookEvent> {
        self.records@.map_values(|r: HookRecord| r.event())
    }

    open spec fn parsed(&self, namespace: Seq<char>, local_name: Seq<char>, text: Seq<char>) -> ValueModel {
        read_as(self.reading, text)
    }

    fn parse_attribute(&self, namespace: &DefaultAtom, local_name: &DefaultAtom, value: String) -> (r:
        AttrValue) {
        match self.reading {
            ValueKind::Text => AttrValue::StringAttrValue(value),
            ValueKind::TokenList => AttrValue::from_tokenlist(value),
            ValueKind::UnsignedInt(default) => AttrValue::from_u32(value, default),
            ValueKind::Symbol => AttrValue::from_atomic(value),
        }
    }

    fn before_remove_attr(&mut self, attr: &Attr) {
        let rec = HookRecord { kind: HookKind::BeforeRemove, attr: attr.snapshot() };
        self.records.push(rec);
        assert(self.hook_log() =~= old(self).hook_log().push(HookEvent::BeforeRemove(attr@)));
    }

    fn after_set_attr(&mut self, attr: &Attr) {
        let rec = HookRecord { kind: HookKind::AfterSet, attr: attr.snapshot() };
        self.records.push(rec);
        assert(self.hook_log() =~= old(self).hook_log().push(HookEvent::AfterSet(attr@)));
    }
}

} // verus!
