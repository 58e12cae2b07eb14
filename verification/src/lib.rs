//! Platform-string elements: iterate, compare, and manipulate native
//! operating-system strings (paths, arguments, environment values) one code
//! unit at a time, without platform-conditional code at call sites.
//!
//! A native string is a sequence of code units: 8-bit units on narrow
//! platforms, 16-bit units on wide ones. This crate models a code unit as a
//! `u16`, the width that covers both; a narrow platform's units embed as the
//! values below `0x100`. [`NativeString`] owns such a sequence,
//! [`OsStrElements`] iterates it lazily by borrow, and [`OsStrElement`] wraps
//! one unit with the cross-type comparison rules that make literal
//! comparisons (`element == 'h'`) safe on either width.

use vstd::prelude::*;

verus! {

/// A single element of a native string: one platform code unit.
///
/// Can be compared to another `OsStrElement`, to a one-unit [`NativeString`],
/// to an ASCII character, or to a byte.
#[derive(Debug, Clone, Copy)]
pub struct OsStrElement {
    inner: u16,
}

impl View for OsStrElement {
    type V = u16;

    closed spec fn view(&self) -> u16 {
        self.inner
    }
}

impl OsStrElement {
    /// The raw code-unit value of this element.
    pub fn raw(&self) -> (r: u16)
        ensures
            r == self@,
    {
        self.inner
    }
}

/// An element matches an ASCII character exactly when the character is in
/// the ASCII range and the element's unit, truncated to its low 8 bits,
/// equals the character's code point. A character outside the ASCII range
/// never matches, whatever the unit holds.
pub open spec fn ascii_char_matches(u: u16, c: char) -> bool {
    c as u32 <= 0x7f && (u as u32) % 0x100 == c as u32
}

impl OsStrElement {
    /// A new one-unit native string holding exactly this element's unit.
    pub fn as_os_string(&self) -> (r: NativeString)
        ensures
            r@ == seq![self@],
    {
        let mut units: Vec<u16> = Vec::new();
        units.push(self.inner);
        proof {
            assert(units@ =~= seq![self@]);
        }
        NativeString::from_units(units)
    }
}

impl PartialEq for OsStrElement {
    /// Two elements are equal exactly when their raw units are equal.
    fn eq(&self, other: &OsStrElement) -> bool {
        self.inner == other.inner
    }
}

impl Eq for OsStrElement {

}

impl vstd::std_specs::cmp::PartialEqSpecImpl for OsStrElement {
    open spec fn obeys_eq_spec() -> bool {
        true
    }

    open spec fn eq_spec(&self, other: &OsStrElement) -> bool {
        self@ == other@
    }
}

impl PartialEq<char> for OsStrElement {
    /// An ASCII character matches when the element's low byte is its code
    /// point; a non-ASCII character never matches.
    fn eq(&self, other: &char) -> bool {
        let code: u32 = *other as u32;
        code <= 0x7f && (self.inner as u32) % 0x100 == code
    }
}

impl vstd::std_specs::cmp::PartialEqSpecImpl<char> for OsStrElement {
    open spec fn obeys_eq_spec() -> bool {
        true
    }

    open spec fn eq_spec(&self, other: &char) -> bool {
        ascii_char_matches(self@, *other)
    }
}

impl PartialEq<u8> for OsStrElement {
    /// A byte matches exactly when the element's unit round-trips through an
    /// 8-bit truncation and the truncated value is the byte: a wide unit
    /// with a non-zero high byte never matches, even when its low byte does.
    fn eq(&self, other: &u8) -> bool {
        self.inner == *other as u16
    }
}

impl vstd::std_specs::cmp::PartialEqSpecImpl<u8> for OsStrElement {
    open spec fn obeys_eq_spec() -> bool {
        true
    }

    open spec fn eq_spec(&self, other: &u8) -> bool {
        self@ == *other as u16
    }
}

/// An owned native string: a sequence of platform code units. The units are
/// arbitrary — not necessarily valid text, and on wide platforms possibly
/// unpaired surrogate halves.
#[derive(Debug, Clone)]
pub struct NativeString {
    units: Vec<u16>,
}

impl View for NativeString {
    type V = Seq<u16>;

    closed spec fn view(&self) -> Seq<u16> {
        self.units@
    }
}

impl NativeString {
    /// The empty native string.
    pub fn new() -> (r: NativeString)
        ensures
            r@ == Seq::<u16>::empty(),
    {
        NativeString { units: Vec::new() }
    }

    /// Builds a native string from its code units.
    pub fn from_units(units: Vec<u16>) -> (r: NativeString)
        ensures
            r@ == units@,
    {
        NativeString { units }
    }

    /// The code units of this native string, in storage order.
    pub fn as_units(&self) -> (r: &Vec<u16>)
        ensures
            r@ == self@,
    {
        &self.units
    }

    /// The length of this native string, counted in code units.
    pub fn len(&self) -> (r: usize)
        ensures
            r == self@.len(),
    {
        self.units.len()
    }
}

/// The elements of a unit sequence, in storage order: the mathematical model
/// of what [`OsStrGenericExt::elements`] yields.
pub closed spec fn elem_seq(s: Seq<u16>) -> Seq<OsStrElement> {
    Seq::new(s.len(), |i: int| OsStrElement { inner: s[i] })
}

/// The code units carried by a sequence of elements: the mathematical model
/// of reconstruction ([`NativeString::from_elements`]).
pub open spec fn unit_seq(es: Seq<OsStrElement>) -> Seq<u16> {
    es.map_values(|e: OsStrElement| e@)
}

/// Element iteration and reconstruction are mutually inverse: rebuilding a
/// native string from the elements of `s` yields exactly `s`'s units.
pub proof fn lemma_round_trip(s: Seq<u16>)
    ensures
        unit_seq(elem_seq(s)) == s,
{
    assert(unit_seq(elem_seq(s)) =~= s);
}

/// Iterating a native string yields exactly one element per code unit.
pub proof fn lemma_length_agreement(s: Seq<u16>)
    ensures
        elem_seq(s).len() == s.len(),
{
}

/// The element at position `i` wraps exactly the code unit at position `i`.
pub proof fn lemma_element_at(s: Seq<u16>, i: int)
    requires
        0 <= i < s.len(),
    ensures
        elem_seq(s)[i]@ == s[i],
{
}

/// Iterator over the elements of a [`NativeString`], lazy and borrowing:
/// it copies nothing but the element it yields.
#[derive(Debug, Clone)]
pub struct OsStrElements<'a> {
    units: &'a Vec<u16>,
    pos: usize,
}

impl<'a> View for OsStrElements<'a> {
    type V = Seq<OsStrElement>;

    /// The elements this iterator has yet to yield.
    closed spec fn view(&self) -> Seq<OsStrElement> {
        elem_seq(self.units@).skip(self.pos as int)
    }
}

impl<'a> OsStrElements<'a> {
    /// The cursor never points past the end of the borrowed units.
    pub closed spec fn wf(&self) -> bool {
        self.pos <= self.units@.len()
    }

    /// Yields the next element, or `None` once the units are exhausted.
    pub fn next(&mut self) -> (r: Option<OsStrElement>)
        requires
            old(self).wf(),
        ensures
            final(self).wf(),
            old(self)@.len() == 0 ==> r is None && *final(self) == *old(self),
            old(self)@.len() > 0 ==> r == Some(old(self)@[0]) && final(self)@ == old(self)@.drop_first(),
    {
        if self.pos < self.units.len() {
            let e = OsStrElement { inner: self.units[self.pos] };
            self.pos = self.pos + 1;
            proof {
                assert(final(self)@ =~= old(self)@.drop_first());
            }
            Some(e)
        } else {
            None
        }
    }

    /// Looks at the next element without advancing.
    pub fn peek(&self) -> (r: Option<OsStrElement>)
        requires
            self.wf(),
        ensures
            self@.len() == 0 ==> r is None,
            self@.len() > 0 ==> r == Some(self@[0]),
    {
        if self.pos < self.units.len() {
            Some(OsStrElement { inner: self.units[self.pos] })
        } else {
            None
        }
    }
}

impl<'a> PartialEq<&'a NativeString> for OsStrElement {
    /// A native string matches an element exactly when it is one unit long
    /// and that single unit is the element's raw value. A longer or empty
    /// string never matches — that is not an error.
    fn eq(&self, other: &&'a NativeString) -> bool {
        if other.len() != 1 {
            return false;
        }
        let mut it = other.elements();
        let first = it.next();
        proof {
            assert(elem_seq(other@)[0]@ == other@[0]);
        }
        first.unwrap().raw() == self.inner
    }
}

impl<'a> vstd::std_specs::cmp::PartialEqSpecImpl<&'a NativeString> for OsStrElement {
    open spec fn obeys_eq_spec() -> bool {
        true
    }

    open spec fn eq_spec(&self, other: &&'a NativeString) -> bool {
        other@.len() == 1 && other@[0] == self@
    }
}

impl PartialEq for NativeString {
    /// Two native strings are equal exactly when their unit sequences are.
    fn eq(&self, other: &NativeString) -> bool {
        if self.units.len() != other.units.len() {
            return false;
        }
        let mut i: usize = 0;
        while i < self.units.len()
            invariant
                i <= self.units@.len(),
                self.units@.len() == other.units@.len(),
                forall|j: int| 0 <= j < i ==> self.units@[j] == other.units@[j],
            decreases self.units@.len() - i,
        {
            if self.units[i] != other.units[i] {
                return false;
            }
            i = i + 1;
        }
        proof {
            assert(self@ =~= other@);
        }
        true
    }
}

impl Eq for NativeString {

}

impl vstd::std_specs::cmp::PartialEqSpecImpl for NativeString {
    open spec fn obeys_eq_spec() -> bool {
        true
    }

    open spec fn eq_spec(&self, other: &NativeString) -> bool {
        self@ == other@
    }
}

/// `p` is a prefix of `s`: `p` is no longer than `s` and agrees with it
/// pointwise on `p`'s whole length.
pub open spec fn is_prefix(p: Seq<u16>, s: Seq<u16>) -> bool {
    p.len() <= s.len() && (forall|i: int| 0 <= i < p.len() ==> p[i] == s[i])
}

/// Every unit sequence is a prefix of itself, the empty one included.
pub proof fn lemma_prefix_reflexive(s: Seq<u16>)
    ensures
        is_prefix(s, s),
{
}

/// A sequence strictly longer than `s` is never a prefix of `s`.
pub proof fn lemma_prefix_over_length(s: Seq<u16>, p: Seq<u16>)
    requires
        p.len() > s.len(),
    ensures
        !is_prefix(p, s),
{
}

/// Stripping a matched prefix inverts concatenation: when `p` is a prefix of
/// `s`, putting `p` back in front of the remainder restores `s` exactly.
pub proof fn lemma_strip_inverse(s: Seq<u16>, p: Seq<u16>)
    requires
        is_prefix(p, s),
    ensures
        p + s.skip(p.len() as int) == s,
{
    assert(p + s.skip(p.len() as int) =~= s);
}

impl NativeString {
    /// Reconstruction: collects the elements an iterator has yet to yield
    /// into a new owned native string, one code unit per element.
    pub fn from_elements(it: OsStrElements) -> (r: NativeString)
        requires
            it.wf(),
        ensures
            r@ == unit_seq(it@),
    {
        let ghost orig: Seq<OsStrElement> = it@;
        let mut cur = it;
        let mut units: Vec<u16> = Vec::new();
        loop
            invariant
                cur.wf(),
                unit_seq(orig) =~= units@ + unit_seq(cur@),
            ensures
                units@ == unit_seq(orig),
            decreases cur@.len(),
        {
            let ghost before: Seq<OsStrElement> = cur@;
            match cur.next() {
                Some(e) => {
                    units.push(e.raw());
                    proof {
                        assert(unit_seq(before) =~= seq![e@] + unit_seq(before.drop_first()));
                    }
                },
                None => {
                    proof {
                        assert(unit_seq(orig) =~= units@);
                    }
                    break;
                },
            }
        }
        NativeString { units }
    }
}

/// Operations available on native strings: element iteration and the prefix
/// operations built on it.
pub trait OsStrGenericExt {
    /// The code units of this native string, in storage order.
    spec fn units(&self) -> Seq<u16>;

    /// Iterates over the elements of this native string, smallest first.
    /// One element is yielded per code unit, in storage order.
    fn elements<'a>(&'a self) -> (it: OsStrElements<'a>)
        ensures
            it.wf(),
            it@ == elem_seq(self.units()),
    ;

    /// True exactly when every element of `prefix` matches, in order, the
    /// corresponding leading element of `self`. An empty prefix always
    /// matches; a whole-string match counts as a prefix.
    fn starts_with(&self, prefix: &Self) -> (r: bool)
        ensures
            r == is_prefix(prefix.units(), self.units()),
    ;

    /// Strips a matched prefix: returns the remainder of `self` after
    /// `prefix` as a new owned native string, or `None` exactly when
    /// `prefix` is not a prefix of `self`.
    fn without_prefix(&self, prefix: &Self) -> (r: Option<NativeString>)
        ensures
            r is Some <==> is_prefix(prefix.units(), self.units()),
            r matches Some(rest) ==> rest@ == self.units().skip(prefix.units().len() as int),
    ;
}

impl OsStrGenericExt for NativeString {
    open spec fn units(&self) -> Seq<u16> {
        self@
    }

    fn elements<'a>(&'a self) -> (it: OsStrElements<'a>) {
        OsStrElements { units: &self.units, pos: 0 }
    }

    fn starts_with(&self, prefix: &NativeString) -> (r: bool) {
        let mut ei = self.elements();
        let mut pi = prefix.elements();
        let ghost k: int = 0;
        loop
            invariant
                ei.wf(),
                pi.wf(),
                0 <= k <= self@.len(),
                k <= prefix@.len(),
                ei@ == elem_seq(self@).skip(k),
                pi@ == elem_seq(prefix@).skip(k),
                forall|i: int| 0 <= i < k ==> prefix@[i] == self@[i],
            decreases pi@.len(),
        {
            let e = ei.next();
            let p = pi.next();
            match (e, p) {
                (Some(_), None) => {
                    return true;
                },
                (None, None) => {
                    return true;
                },
                (None, Some(_)) => {
                    return false;
                },
                (Some(c1), Some(c2)) => {
                    if c1 != c2 {
                        proof {
                            assert(elem_seq(self@)[k]@ == self@[k]);
                            assert(elem_seq(prefix@)[k]@ == prefix@[k]);
                        }
                        return false;
                    }
                    proof {
                        assert(elem_seq(self@)[k]@ == self@[k]);
                        assert(elem_seq(prefix@)[k]@ == prefix@[k]);
                        assert(ei@ =~= elem_seq(self@).skip(k + 1));
                        assert(pi@ =~= elem_seq(prefix@).skip(k + 1));
                        k = k + 1;
                    }
                },
            }
        }
    }

    fn without_prefix(&self, prefix: &NativeString) -> (r: Option<NativeString>) {
        let mut ei = self.elements();
        let mut pi = prefix.elements();
        let ghost k: int = 0;
        loop
            invariant
                ei.wf(),
                pi.wf(),
                0 <= k <= self@.len(),
                k <= prefix@.len(),
                ei@ == elem_seq(self@).skip(k),
                pi@ == elem_seq(prefix@).skip(k),
                forall|i: int| 0 <= i < k ==> prefix@[i] == self@[i],
            ensures
                is_prefix(prefix@, self@),
                ei.wf(),
                ei@ == elem_seq(self@).skip(prefix@.len() as int),
            decreases pi@.len(),
        {
            let e = ei.peek();
            let p = pi.next();
            match (e, p) {
                (Some(_), None) => {
                    break;
                },
                (None, None) => {
                    break;
                },
                (None, Some(_)) => {
                    return None;
                },
                (Some(c1), Some(c2)) => {
                    if c1 != c2 {
                        proof {
                            assert(elem_seq(self@)[k]@ == self@[k]);
                            assert(elem_seq(prefix@)[k]@ == prefix@[k]);
                        }
                        return None;
                    }
                    let _ = ei.next();
                    proof {
                        assert(elem_seq(self@)[k]@ == self@[k]);
                        assert(elem_seq(prefix@)[k]@ == prefix@[k]);
                        assert(ei@ =~= elem_seq(self@).skip(k + 1));
                        assert(pi@ =~= elem_seq(prefix@).skip(k + 1));
                        k = k + 1;
                    }
                },
            }
        }
        let rest = NativeString::from_elements(ei);
        proof {
            assert(rest@ =~= self@.skip(prefix@.len() as int));
        }
        Some(rest)
    }
}

} // verus!
