//! Attribute values: plain text, token lists, unsigned integers and atoms.
use crate::atom::{atom_as_str, atom_from_str, atom_text};
use crate::tokens::{html_tokens, split_html_space_chars, views_of};
use string_cache::DefaultAtom;
use vstd::prelude::*;

verus! {

/// The number that an ASCII digit stands for.
pub open spec fn digit_value(c: char) -> int {
    c as int - '0' as int
}

pub open spec fn is_ascii_digit(c: char) -> bool {
    '0' <= c && c <= '9'
}

/// The number written in base 10 by the digits of `s`.
pub open spec fn decimal_value(s: Seq<char>) -> int
    decreases s.len(),
{
    if s.len() == 0 {
        0
    } else {
        decimal_value(s.drop_last()) * 10 + digit_value(s.last())
    }
}

/// The digits that follow an optional leading `+`.
pub open spec fn unsigned_digits(s: Seq<char>) -> Seq<char> {
    if s.len() > 0 && s[0] == '+' {
        s.drop_first()
    } else {
        s
    }
}

/// `s` read as a base-10 unsigned 32-bit integer: an optional `+` and then
/// one or more ASCII digits whose value fits in 32 bits.
pub open spec fn decimal_u32(s: Seq<char>) -> Option<u32> {
    let d = unsigned_digits(s);
    if d.len() > 0 && (forall|i: int| 0 <= i < d.len() ==> is_ascii_digit(#[trigger] d[i]))
        && decimal_value(d) <= u32::MAX {
        Some(decimal_value(d) as u32)
    } else {
        None
    }
}

/// The number that `s` reads as, or `default` where it reads as none.
pub open spec fn u32_or(s: Seq<char>, default: u32) -> u32 {
    match decimal_u32(s) {
        Some(v) => v,
        None => default,
    }
}

/// Relies on `<u32 as FromStr>::from_str`: it accepts an optional `+`
/// followed by one or more digits whose value fits in a `u32`, and nothing
/// else.
#[verifier::external_body]
fn parse_u32(s: &str) -> (r: Option<u32>)
    ensures
        r == decimal_u32(s@),
{
    s.parse::<u32>().ok()
}

/// The texts of a list of atoms.
pub open spec fn atom_texts(v: Seq<DefaultAtom>) -> Seq<Seq<char>> {
    v.map_values(|a: DefaultAtom| atom_text(a))
}

/// What an attribute value stands for.
pub enum ValueModel {
    Text(Seq<char>),
    TokenList(Seq<char>, Seq<Seq<char>>),
    UInt(Seq<char>, u32),
    Symbol(Seq<char>),
}

impl ValueModel {
    /// The textual form of the value.
    pub open spec fn text(self) -> Seq<char> {
        match self {
            ValueModel::Text(s) => s,
            ValueModel::TokenList(s, _) => s,
            ValueModel::UInt(s, _) => s,
            ValueModel::Symbol(s) => s,
        }
    }

    /// The tokens of a token list; none for the other kinds.
    pub open spec fn tokens(self) -> Option<Seq<Seq<char>>> {
        match self {
            ValueModel::TokenList(_, t) => Some(t),
            _ => None,
        }
    }
}

/// The value of an attribute.
#[derive(PartialEq, Clone, Debug)]
pub enum AttrValue {
    /// Text with no further structure.
    StringAttrValue(String),
    /// Text and the whitespace-separated tokens read from it.
    TokenListAttrValue(String, Vec<DefaultAtom>),
    /// Text and the unsigned number read from it.
    UIntAttrValue(String, u32),
    /// An interned symbol.
    AtomAttrValue(DefaultAtom),
}

impl View for AttrValue {
    type V = ValueModel;

    open spec fn view(&self) -> ValueModel {
        match self {
            AttrValue::StringAttrValue(s) => ValueModel::Text(s@),
            AttrValue::TokenListAttrValue(s, t) => ValueModel::TokenList(s@, atom_texts(t@)),
            AttrValue::UIntAttrValue(s, n) => ValueModel::UInt(s@, *n),
            AttrValue::AtomAttrValue(a) => ValueModel::Symbol(atom_text(*a)),
        }
    }
}

impl AttrValue {
    /// A token list: `tokens` kept as it is, with an atom for each of its
    /// whitespace-separated tokens, in order.
    pub fn from_tokenlist(tokens: String) -> (r: AttrValue)
        ensures
            r@ == ValueModel::TokenList(tokens@, html_tokens(tokens@)),
    {
        let pieces = split_html_space_chars(tokens.as_str());
        let mut atoms: Vec<DefaultAtom> = Vec::new();
        let mut j: usize = 0;
        while j < pieces.len()
            invariant
                j <= pieces@.len(),
                atom_texts(atoms@) =~= views_of(pieces@).subrange(0, j as int),
            decreases pieces@.len() - j,
        {
            let a = atom_from_str(pieces[j]);
            let ghost before = atoms@;
            atoms.push(a);
            assert(atoms@ =~= before.push(a));
            assert(atom_texts(atoms@) =~= atom_texts(before).push(atom_text(a)));
            assert(views_of(pieces@)[j as int] == pieces@[j as int]@);
            j = j + 1;
        }
        assert(views_of(pieces@).subrange(0, j as int) =~= views_of(pieces@));
        AttrValue::TokenListAttrValue(tokens, atoms)
    }

    /// A number: `string` kept as it is, with the `u32` it reads as in base
    /// 10, or `default` where it reads as none.
    pub fn from_u32(string: String, default: u32) -> (r: AttrValue)
        ensures
            r@ == ValueModel::UInt(string@, u32_or(string@, default)),
    {
        let result = match parse_u32(string.as_str()) {
            Some(v) => v,
            None => default,
        };
        AttrValue::UIntAttrValue(string, result)
    }

    /// An atom for `string`.
    pub fn from_atomic(string: String) -> (r: AttrValue)
        ensures
            r@ == ValueModel::Symbol(string@),
    {
        let value = atom_from_str(string.as_str());
        AttrValue::AtomAttrValue(value)
    }

    /// The tokens of a token list; `None` for the other kinds.
    pub fn tokens(&self) -> (r: Option<&[DefaultAtom]>)
        ensures
            match r {
                Some(t) => self@.tokens() == Some(atom_texts(t@)),
                None => self@.tokens() is None,
            },
    {
        match self {
            AttrValue::TokenListAttrValue(_, tokens) => Some(tokens.as_slice()),
            _ => None,
        }
    }

    /// The textual form of the value, for every kind.
    pub fn as_text(&self) -> (r: &str)
        ensures
            r@ == self@.text(),
    {
        match self {
            AttrValue::StringAttrValue(value) => value.as_str(),
            AttrValue::TokenListAttrValue(value, _) => value.as_str(),
            AttrValue::UIntAttrValue(value, _) => value.as_str(),
            AttrValue::AtomAttrValue(value) => atom_as_str(value),
        }
    }

    /// A copy of the value that owns its own data.
    pub fn duplicate(&self) -> (r: AttrValue)
        ensures
            r@ == self@,
    {
        match self {
            AttrValue::StringAttrValue(s) => AttrValue::StringAttrValue(s.clone()),
            AttrValue::TokenListAttrValue(s, tokens) => {
                let mut copy: Vec<DefaultAtom> = Vec::new();
                let mut j: usize = 0;
                while j < tokens.len()
                    invariant
                        j <= tokens@.len(),
                        atom_texts(copy@) =~= atom_texts(tokens@).subrange(0, j as int),
                    decreases tokens@.len() - j,
                {
                    let a = tokens[j].clone();
                    let ghost before = copy@;
                    copy.push(a);
                    assert(copy@ =~= before.push(a));
                    assert(atom_texts(copy@) =~= atom_texts(before).push(atom_text(a)));
                    j = j + 1;
                }
                assert(atom_texts(tokens@).subrange(0, j as int) =~= atom_texts(tokens@));
                AttrValue::TokenListAttrValue(s.clone(), copy)
            },
            AttrValue::UIntAttrValue(s, n) => AttrValue::UIntAttrValue(s.clone(), *n),
            AttrValue::AtomAttrValue(a) => AttrValue::AtomAttrValue(a.clone()),
        }
    }
}

} // verus!
