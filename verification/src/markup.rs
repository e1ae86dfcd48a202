//! The markup wire format: an ordered tree of named elements with text
//! content and optional type attributes, together with its serialization
//! (including escaping of markup-significant characters) and a strict
//! parser back into the tree. Parsing is proved sound (a parsed tree
//! serializes back to the input) and complete on the canonical form (the
//! serialization of a canonical element parses back to exactly that
//! element; serialization is injective there).

use vstd::prelude::*;

verus! {

broadcast use vstd::std_specs::vec::group_vec_axioms, vstd::seq::group_seq_axioms, vstd::string::group_string_axioms;

/// One node of a markup document.
#[derive(Debug)]
pub struct Element {
    pub tag: String,
    pub type_attr: Option<String>,
    pub text: String,
    pub children: Vec<Element>,
}

/// The mathematical model of an `Element`.
#[verifier::ext_equal]
pub ghost struct ElemV {
    pub tag: Seq<char>,
    pub type_attr: Option<Seq<char>>,
    pub text: Seq<char>,
    pub children: Seq<ElemV>,
}

/// The models of a sequence of elements, in order.
pub open spec fn elems_view(cs: Seq<Element>) -> Seq<ElemV>
    decreases cs,
{
    if cs.len() == 0 {
        Seq::empty()
    } else {
        elems_view(cs.drop_last()).push(cs.last()@)
    }
}

impl View for Element {
    type V = ElemV;

    open spec fn view(&self) -> ElemV
        decreases *self,
    {
        ElemV {
            tag: self.tag@,
            type_attr: match self.type_attr {
                Some(s) => Some(s@),
                None => None,
            },
            text: self.text@,
            children: elems_view(self.children@),
        }
    }
}

pub broadcast proof fn lemma_elems_view_len(cs: Seq<Element>)
    ensures
        (#[trigger] elems_view(cs)).len() == cs.len(),
    decreases cs.len(),
{
    if cs.len() > 0 {
        lemma_elems_view_len(cs.drop_last());
        assert(cs.drop_last().len() == cs.len() - 1);
        assert(elems_view(cs) == elems_view(cs.drop_last()).push(cs.last()@));
        assert(elems_view(cs).len() == cs.len());
    } else {
        assert(elems_view(cs) == Seq::<ElemV>::empty());
    }
}

pub broadcast proof fn lemma_elems_view_index(cs: Seq<Element>, i: int)
    requires
        0 <= i < cs.len(),
    ensures
        #[trigger] elems_view(cs)[i] == cs[i]@,
    decreases cs.len(),
{
    lemma_elems_view_len(cs);
    lemma_elems_view_len(cs.drop_last());
    assert(elems_view(cs) == elems_view(cs.drop_last()).push(cs.last()@));
    if i < cs.len() - 1 {
        lemma_elems_view_index(cs.drop_last(), i);
        assert(cs.drop_last()[i] == cs[i]);
        assert(elems_view(cs)[i] == elems_view(cs.drop_last())[i]);
    } else {
        assert(cs.last() == cs[i]);
        assert(elems_view(cs)[i] == cs.last()@);
    }
}

/// A leaf element: text content only, no attribute, no children.
pub open spec fn leaf_v(tag: Seq<char>, text: Seq<char>) -> ElemV {
    ElemV { tag, type_attr: None, text, children: Seq::empty() }
}

/// A leaf element carrying a type attribute.
pub open spec fn typed_leaf_v(tag: Seq<char>, ty: Seq<char>, text: Seq<char>) -> ElemV {
    ElemV { tag, type_attr: Some(ty), text, children: Seq::empty() }
}

/// Zero or one leaf elements, depending on whether the field is present.
pub open spec fn opt_leaf_v(tag: Seq<char>, v: Option<String>) -> Seq<ElemV> {
    match v {
        Some(s) => seq![leaf_v(tag, s@)],
        None => Seq::empty(),
    }
}

/// The first element of `cs` named `tag`, if any.
pub open spec fn find_in(cs: Seq<ElemV>, tag: Seq<char>) -> Option<ElemV>
    decreases cs.len(),
{
    if cs.len() == 0 {
        None
    } else if cs[0].tag == tag {
        Some(cs[0])
    } else {
        find_in(cs.skip(1), tag)
    }
}

/// The first child of `e` named `tag`, if any.
pub open spec fn find_child(e: ElemV, tag: Seq<char>) -> Option<ElemV> {
    find_in(e.children, tag)
}

/// The text of the first child of `e` named `tag`, if such a child exists.
pub open spec fn child_text(e: ElemV, tag: Seq<char>) -> Option<Seq<char>> {
    match find_child(e, tag) {
        Some(c) => Some(c.text),
        None => None,
    }
}

/// The view of an optional field value.
pub open spec fn opt_view(v: Option<String>) -> Option<Seq<char>> {
    match v {
        Some(s) => Some(s@),
        None => None,
    }
}

/// The element name chosen by the caller, or the default.
pub open spec fn chosen_name(name: Option<&str>, default: Seq<char>) -> Seq<char> {
    match name {
        Some(n) => n@,
        None => default,
    }
}

/// Searching a concatenation finds the first match of the left part, and
/// otherwise the first match of the right part.
pub proof fn lemma_find_append(cs1: Seq<ElemV>, cs2: Seq<ElemV>, tag: Seq<char>)
    ensures
        find_in(cs1 + cs2, tag) == (match find_in(cs1, tag) {
            Some(c) => Some(c),
            None => find_in(cs2, tag),
        }),
    decreases cs1.len(),
{
    if cs1.len() == 0 {
        assert(cs1 + cs2 =~= cs2);
    } else {
        assert((cs1 + cs2)[0] == cs1[0]);
        assert((cs1 + cs2).skip(1) =~= cs1.skip(1) + cs2);
        lemma_find_append(cs1.skip(1), cs2, tag);
    }
}

/// What searching an optional leaf segment finds.
pub proof fn lemma_find_opt_leaf(t: Seq<char>, v: Option<String>, tag: Seq<char>)
    ensures
        find_in(opt_leaf_v(t, v), tag) == (match v {
            Some(s) => if t == tag {
                Some(leaf_v(t, s@))
            } else {
                None
            },
            None => None,
        }),
{
    assert(find_in(Seq::<ElemV>::empty(), tag) is None);
    match v {
        Some(s) => {
            assert(opt_leaf_v(t, v)[0] == leaf_v(t, s@));
            assert(opt_leaf_v(t, v).skip(1) =~= Seq::<ElemV>::empty());
        },
        None => {
            assert(opt_leaf_v(t, v) =~= Seq::<ElemV>::empty());
        },
    }
}

/// If the element at `i` is the first one named `tag`, the search finds it.
pub proof fn lemma_find_at(cs: Seq<ElemV>, tag: Seq<char>, i: int)
    requires
        0 <= i < cs.len(),
        cs[i].tag == tag,
        forall|j: int| 0 <= j < i ==> #[trigger] cs[j].tag != tag,
    ensures
        find_in(cs, tag) == Some(cs[i]),
    decreases i,
{
    if i > 0 {
        assert(cs[0].tag != tag);
        lemma_find_at(cs.skip(1), tag, i - 1);
        assert(cs.skip(1)[i - 1] == cs[i]);
    }
}

/// If no element of `cs` is named `tag`, the search finds nothing.
pub proof fn lemma_find_none(cs: Seq<ElemV>, tag: Seq<char>)
    requires
        forall|j: int| 0 <= j < cs.len() ==> #[trigger] cs[j].tag != tag,
    ensures
        find_in(cs, tag) is None,
    decreases cs.len(),
{
    if cs.len() > 0 {
        lemma_find_none(cs.skip(1), tag);
    }
}

impl Element {
    /// An element with the given name and no attribute, text or children yet.
    pub fn node(tag: &str) -> (e: Element)
        ensures
            e@ == (ElemV {
                tag: tag@,
                type_attr: None,
                text: Seq::empty(),
                children: Seq::empty(),
            }),
    {
        let e = Element {
            tag: tag.to_owned(),
            type_attr: None,
            text: String::new(),
            children: Vec::new(),
        };
        proof {
            assert(e@ =~= (ElemV {
                tag: tag@,
                type_attr: None,
                text: Seq::empty(),
                children: Seq::empty(),
            }));
        }
        e
    }

    /// A leaf element with the given name and text content.
    pub fn leaf(tag: &str, text: &str) -> (e: Element)
        ensures
            e@ == leaf_v(tag@, text@),
    {
        let e = Element {
            tag: tag.to_owned(),
            type_attr: None,
            text: text.to_owned(),
            children: Vec::new(),
        };
        proof {
            assert(e@ =~= leaf_v(tag@, text@));
        }
        e
    }

    /// A leaf element with the given name, type attribute and text content.
    pub fn typed_leaf(tag: &str, ty: &str, text: &str) -> (e: Element)
        ensures
            e@ == typed_leaf_v(tag@, ty@, text@),
    {
        let e = Element {
            tag: tag.to_owned(),
            type_attr: Some(ty.to_owned()),
            text: text.to_owned(),
            children: Vec::new(),
        };
        proof {
            assert(e@ =~= typed_leaf_v(tag@, ty@, text@));
        }
        e
    }

    /// Appends a child element.
    pub fn push_child(&mut self, c: Element)
        ensures
            final(self)@ == (ElemV { children: old(self)@.children.push(c@), ..old(self)@ }),
    {
        self.children.push(c);
        proof {
            broadcast use lemma_elems_view_len, lemma_elems_view_index;

            let oldcs = old(self).children@;
            assert(self.children@ == oldcs.push(c));
            assert(self@.children == elems_view(self.children@));
            assert(old(self)@.children == elems_view(oldcs));
            assert forall|i: int| 0 <= i < oldcs.len() implies #[trigger] self@.children[i]
                == old(self)@.children[i] by {
                assert(self.children@[i] == oldcs[i]);
            }
            assert(self@.children[oldcs.len() as int] == c@);
            assert(self@.children =~= old(self)@.children.push(c@));
            assert(self@ =~= (ElemV { children: old(self)@.children.push(c@), ..old(self)@ }));
        }
    }

    /// Appends a leaf child for a present field, and nothing for an absent one.
    pub fn push_opt_leaf(&mut self, tag: &str, v: &Option<String>)
        ensures
            final(self)@ == (ElemV {
                children: old(self)@.children + opt_leaf_v(tag@, *v),
                ..old(self)@
            }),
    {
        match v {
            Some(s) => {
                self.push_child(Element::leaf(tag, s.as_str()));
                proof {
                    assert(self@.children =~= old(self)@.children + opt_leaf_v(tag@, *v));
                    assert(self@ =~= (ElemV {
                        children: old(self)@.children + opt_leaf_v(tag@, *v),
                        ..old(self)@
                    }));
                }
            },
            None => {
                proof {
                    assert(self@.children =~= old(self)@.children + opt_leaf_v(tag@, *v));
                    assert(self@ =~= (ElemV {
                        children: old(self)@.children + opt_leaf_v(tag@, *v),
                        ..old(self)@
                    }));
                }
            },
        }
    }

    /// The first child named `tag`, if any.
    #[verifier::loop_isolation(false)]
    pub fn find(&self, tag: &str) -> (r: Option<&Element>)
        ensures
            match r {
                Some(c) => find_child(self@, tag@) == Some(c@),
                None => find_child(self@, tag@) is None,
            },
    {
        let n = self.children.len();
        for i in 0..n
            invariant
                n == self.children.len(),
                forall|j: int| 0 <= j < i ==> #[trigger] self@.children[j].tag != tag@,
        {
            proof {
                broadcast use lemma_elems_view_len, lemma_elems_view_index;

                assert(self@.children == elems_view(self.children@));
                assert(self@.children[i as int] == self.children@[i as int]@);
            }
            if str_eq(self.children[i].tag.as_str(), tag) {
                proof {
                    lemma_find_at(self@.children, tag@, i as int);
                }
                return Some(&self.children[i]);
            }
        }
        proof {
            broadcast use lemma_elems_view_len;

            assert(self@.children == elems_view(self.children@));
            assert(self@.children.len() == n);
            lemma_find_none(self@.children, tag@);
        }
        None
    }
}

/// How one character of text content is serialized.
pub open spec fn escape_char(c: char) -> Seq<char> {
    if c == '<' {
        seq!['&', 'l', 't', ';']
    } else if c == '>' {
        seq!['&', 'g', 't', ';']
    } else if c == '&' {
        seq!['&', 'a', 'm', 'p', ';']
    } else if c == '"' {
        seq!['&', 'q', 'u', 'o', 't', ';']
    } else if c == '\'' {
        seq!['&', 'a', 'p', 'o', 's', ';']
    } else {
        seq![c]
    }
}

/// The serialization of text content: every markup-significant character
/// is replaced by its entity.
pub open spec fn escape_seq(s: Seq<char>) -> Seq<char>
    decreases s.len(),
{
    if s.len() == 0 {
        Seq::empty()
    } else {
        escape_char(s[0]) + escape_seq(s.skip(1))
    }
}

/// The serialization of a type attribute.
pub open spec fn ser_attr(a: Option<Seq<char>>) -> Seq<char> {
    match a {
        None => Seq::empty(),
        Some(t) => seq![' ', 't', 'y', 'p', 'e', '=', '"'] + t + seq!['"'],
    }
}

/// The serialization of an element: open tag with optional type attribute,
/// escaped text, the children in order, close tag.
pub open spec fn ser_elem(e: ElemV) -> Seq<char>
    decreases e, 0int,
{
    seq!['<'] + e.tag + ser_attr(e.type_attr) + seq!['>'] + escape_seq(e.text) + ser_seq(
        e.children,
        e.children.len() as int,
    ) + seq!['<', '/'] + e.tag + seq!['>']
}

/// The serializations of the first `n` elements of `cs`, concatenated.
pub open spec fn ser_seq(cs: Seq<ElemV>, n: int) -> Seq<char>
    decreases cs, n,
{
    if n <= 0 || n > cs.len() {
        Seq::empty()
    } else {
        ser_seq(cs, n - 1) + ser_elem(cs[n - 1])
    }
}

/// Appends the characters of `s` to `out`.
#[verifier::loop_isolation(false)]
pub fn push_str_chars(out: &mut Vec<char>, s: &str)
    ensures
        final(out)@ == old(out)@ + s@,
{
    let n = s.unicode_len();
    for i in 0..n
        invariant
            n == s@.len(),
            out@ == old(out)@ + s@.take(i as int),
    {
        out.push(s.get_char(i));
        proof {
            assert(out@ =~= old(out)@ + s@.take(i + 1));
        }
    }
    proof {
        assert(old(out)@ + s@.take(n as int) =~= old(out)@ + s@);
    }
}

/// Appends the escaped serialization of `s` to `out`.
#[verifier::loop_isolation(false)]
pub fn push_escaped(out: &mut Vec<char>, s: &str)
    ensures
        final(out)@ == old(out)@ + escape_seq(s@),
{
    let n = s.unicode_len();
    proof {
        assert(s@.skip(0) =~= s@);
    }
    for i in 0..n
        invariant
            n == s@.len(),
            out@ + escape_seq(s@.skip(i as int)) == old(out)@ + escape_seq(s@),
    {
        let ghost prev = out@;
        let c = s.get_char(i);
        proof {
            assert(s@.skip(i as int)[0] == s@[i as int]);
            assert(s@.skip(i as int).skip(1) =~= s@.skip(i + 1));
            assert(escape_seq(s@.skip(i as int)) == escape_char(c) + escape_seq(s@.skip(i + 1)));
        }
        if c == '<' {
            out.push('&');
            out.push('l');
            out.push('t');
            out.push(';');
        } else if c == '>' {
            out.push('&');
            out.push('g');
            out.push('t');
            out.push(';');
        } else if c == '&' {
            out.push('&');
            out.push('a');
            out.push('m');
            out.push('p');
            out.push(';');
        } else if c == '"' {
            out.push('&');
            out.push('q');
            out.push('u');
            out.push('o');
            out.push('t');
            out.push(';');
        } else if c == '\'' {
            out.push('&');
            out.push('a');
            out.push('p');
            out.push('o');
            out.push('s');
            out.push(';');
        } else {
            out.push(c);
        }
        proof {
            assert(out@ =~= prev + escape_char(c));
            assert(out@ + escape_seq(s@.skip(i + 1)) =~= prev + escape_seq(s@.skip(i as int)));
        }
    }
    proof {
        assert(escape_seq(s@.skip(n as int)) == Seq::<char>::empty());
        assert(out@ =~= out@ + escape_seq(s@.skip(n as int)));
    }
}

impl Element {
    /// Appends the serialization of this element to `out`.
    #[verifier::loop_isolation(false)]
    pub fn write_into(&self, out: &mut Vec<char>)
        ensures
            final(out)@ == old(out)@ + ser_elem(self@),
        decreases *self,
    {
        out.push('<');
        push_str_chars(out, self.tag.as_str());
        match &self.type_attr {
            Some(t) => {
                out.push(' ');
                out.push('t');
                out.push('y');
                out.push('p');
                out.push('e');
                out.push('=');
                out.push('"');
                push_str_chars(out, t.as_str());
                out.push('"');
            },
            None => {},
        }
        out.push('>');
        proof {
            assert(out@ =~= old(out)@ + (seq!['<'] + self@.tag + ser_attr(self@.type_attr)
                + seq!['>']));
        }
        push_escaped(out, self.text.as_str());
        let ghost mid = out@;
        proof {
            assert(mid =~= old(out)@ + (seq!['<'] + self@.tag + ser_attr(self@.type_attr)
                + seq!['>'] + escape_seq(self@.text)));
        }
        let n = self.children.len();
        for i in 0..n
            invariant
                n == self.children.len(),
                out@ == mid + ser_seq(self@.children, i as int),
        {
            proof {
                broadcast use lemma_elems_view_len, lemma_elems_view_index;

                assert(self@.children == elems_view(self.children@));
                assert(self@.children[i as int] == self.children@[i as int]@);
            }
            let ghost prev = out@;
            self.children[i].write_into(out);
            proof {
                assert(ser_seq(self@.children, i + 1) == ser_seq(self@.children, i as int)
                    + ser_elem(self@.children[i as int]));
                assert(out@ =~= mid + ser_seq(self@.children, i + 1));
            }
        }
        proof {
            broadcast use lemma_elems_view_len;

            assert(self@.children == elems_view(self.children@));
            assert(self@.children.len() == n);
        }
        out.push('<');
        out.push('/');
        push_str_chars(out, self.tag.as_str());
        out.push('>');
        proof {
            assert(out@ =~= old(out)@ + ser_elem(self@));
        }
    }

    /// The serialized document for this element.
    pub fn to_markup(&self) -> (s: String)
        ensures
            s@ == ser_elem(self@),
    {
        let mut out: Vec<char> = Vec::new();
        self.write_into(&mut out);
        proof {
            assert(out@ =~= ser_elem(self@));
        }
        chars_to_string(&out)
    }
}

/// Relies on `String`'s `FromIterator` implementation: collecting characters
/// yields exactly those characters in order.
#[verifier::external_body]
pub fn chars_to_string(v: &Vec<char>) -> (s: String)
    ensures
        s@ == v@,
{
    v.iter().collect()
}

/// The characters of a string slice, as a vector.
#[verifier::loop_isolation(false)]
pub fn string_to_chars(s: &str) -> (v: Vec<char>)
    ensures
        v@ == s@,
{
    let n = s.unicode_len();
    let mut v: Vec<char> = Vec::new();
    for i in 0..n
        invariant
            n == s@.len(),
            v@ == s@.take(i as int),
    {
        v.push(s.get_char(i));
        proof {
            assert(v@ =~= s@.take(i + 1));
        }
    }
    proof {
        assert(s@.take(n as int) =~= s@);
    }
    v
}

/// Whether two string slices hold the same characters.
pub fn str_eq(a: &str, b: &str) -> (r: bool)
    ensures
        r == (a@ == b@),
{
    let an = a.unicode_len();
    let bn = b.unicode_len();
    if an != bn {
        return false;
    }
    for i in 0..an
        invariant
            an == a@.len(),
            an == b@.len(),
            forall|j: int| 0 <= j < i ==> a@[j] == b@[j],
    {
        if a.get_char(i) != b.get_char(i) {
            return false;
        }
    }
    proof {
        assert(a@ =~= b@);
    }
    true
}

} // verus!

verus! {

/// Prepends a character to a decoded tail, propagating failure.
pub open spec fn cons_char(c: char, rest: Option<Seq<char>>) -> Option<Seq<char>> {
    match rest {
        Some(t) => Some(seq![c] + t),
        None => None,
    }
}

/// What decoding escaped text yields: the five entities decode to their
/// characters, any other occurrence of a markup-significant character is
/// rejected, and every other character stands for itself.
pub open spec fn unescape_seq(s: Seq<char>) -> Option<Seq<char>>
    decreases s.len(),
{
    if s.len() == 0 {
        Some(Seq::empty())
    } else if s[0] == '&' {
        if s.len() >= 4 && s.subrange(0, 4) == seq!['&', 'l', 't', ';'] {
            cons_char('<', unescape_seq(s.skip(4)))
        } else if s.len() >= 4 && s.subrange(0, 4) == seq!['&', 'g', 't', ';'] {
            cons_char('>', unescape_seq(s.skip(4)))
        } else if s.len() >= 5 && s.subrange(0, 5) == seq!['&', 'a', 'm', 'p', ';'] {
            cons_char('&', unescape_seq(s.skip(5)))
        } else if s.len() >= 6 && s.subrange(0, 6) == seq!['&', 'q', 'u', 'o', 't', ';'] {
            cons_char('"', unescape_seq(s.skip(6)))
        } else if s.len() >= 6 && s.subrange(0, 6) == seq!['&', 'a', 'p', 'o', 's', ';'] {
            cons_char('\'', unescape_seq(s.skip(6)))
        } else {
            None
        }
    } else if s[0] == '<' || s[0] == '>' || s[0] == '"' || s[0] == '\'' {
        None
    } else {
        cons_char(s[0], unescape_seq(s.skip(1)))
    }
}

/// Law: escaping neutralizes every markup-significant character, and
/// decoding the escaped text yields back the original string exactly.
pub proof fn lemma_escape_round_trip(u: Seq<char>)
    ensures
        unescape_seq(escape_seq(u)) == Some(u),
    decreases u.len(),
{
    if u.len() == 0 {
        assert(escape_seq(u) == Seq::<char>::empty());
    } else {
        let c = u[0];
        let rest = escape_seq(u.skip(1));
        lemma_escape_round_trip(u.skip(1));
        let s = escape_seq(u);
        assert(s == escape_char(c) + rest);
        if c == '<' {
            assert(s.subrange(0, 4) =~= seq!['&', 'l', 't', ';']);
            assert(s.skip(4) =~= rest);
            assert(seq!['<'] + u.skip(1) =~= u);
        } else if c == '>' {
            assert(s.subrange(0, 4) =~= seq!['&', 'g', 't', ';']);
            assert(s.skip(4) =~= rest);
            assert(seq!['>'] + u.skip(1) =~= u);
        } else if c == '&' {
            assert(s.subrange(0, 5) =~= seq!['&', 'a', 'm', 'p', ';']);
            assert(s.skip(5) =~= rest);
            assert(s.len() >= 4 && s.subrange(0, 4) =~= seq!['&', 'a', 'm', 'p']);
            assert(seq!['&'] + u.skip(1) =~= u);
        } else if c == '"' {
            assert(s.subrange(0, 6) =~= seq!['&', 'q', 'u', 'o', 't', ';']);
            assert(s.skip(6) =~= rest);
            assert(s.subrange(0, 4) =~= seq!['&', 'q', 'u', 'o']);
            assert(s.subrange(0, 5) =~= seq!['&', 'q', 'u', 'o', 't']);
            assert(seq!['"'] + u.skip(1) =~= u);
        } else if c == '\'' {
            assert(s.subrange(0, 6) =~= seq!['&', 'a', 'p', 'o', 's', ';']);
            assert(s.skip(6) =~= rest);
            assert(s.subrange(0, 4) =~= seq!['&', 'a', 'p', 'o']);
            assert(s.subrange(0, 5) =~= seq!['&', 'a', 'p', 'o', 's']);
            assert(seq!['\''] + u.skip(1) =~= u);
        } else {
            assert(s[0] == c);
            assert(s.skip(1) =~= rest);
            assert(seq![c] + u.skip(1) =~= u);
        }
    }
}

/// Decoded text has exactly one escaped form: escaping it back yields the
/// text that was decoded.
pub proof fn lemma_unescape_exact(t: Seq<char>, u: Seq<char>)
    requires
        unescape_seq(t) == Some(u),
    ensures
        escape_seq(u) == t,
    decreases t.len(),
{
    if t.len() == 0 {
        assert(u =~= Seq::<char>::empty());
        assert(escape_seq(u) =~= t);
    } else if t[0] == '&' {
        if t.len() >= 4 && t.subrange(0, 4) == seq!['&', 'l', 't', ';'] {
            let u2 = unescape_seq(t.skip(4))->Some_0;
            lemma_unescape_exact(t.skip(4), u2);
            assert(u == seq!['<'] + u2);
            assert(u.skip(1) =~= u2);
            assert(escape_char('<') + escape_seq(u2) =~= t);
        } else if t.len() >= 4 && t.subrange(0, 4) == seq!['&', 'g', 't', ';'] {
            let u2 = unescape_seq(t.skip(4))->Some_0;
            lemma_unescape_exact(t.skip(4), u2);
            assert(u == seq!['>'] + u2);
            assert(u.skip(1) =~= u2);
            assert(escape_char('>') + escape_seq(u2) =~= t);
        } else if t.len() >= 5 && t.subrange(0, 5) == seq!['&', 'a', 'm', 'p', ';'] {
            let u2 = unescape_seq(t.skip(5))->Some_0;
            lemma_unescape_exact(t.skip(5), u2);
            assert(u == seq!['&'] + u2);
            assert(u.skip(1) =~= u2);
            assert(escape_char('&') + escape_seq(u2) =~= t);
        } else if t.len() >= 6 && t.subrange(0, 6) == seq!['&', 'q', 'u', 'o', 't', ';'] {
            let u2 = unescape_seq(t.skip(6))->Some_0;
            lemma_unescape_exact(t.skip(6), u2);
            assert(u == seq!['"'] + u2);
            assert(u.skip(1) =~= u2);
            assert(escape_char('"') + escape_seq(u2) =~= t);
        } else {
            let u2 = unescape_seq(t.skip(6))->Some_0;
            lemma_unescape_exact(t.skip(6), u2);
            assert(u == seq!['\''] + u2);
            assert(u.skip(1) =~= u2);
            assert(escape_char('\'') + escape_seq(u2) =~= t);
        }
    } else {
        let u2 = unescape_seq(t.skip(1))->Some_0;
        lemma_unescape_exact(t.skip(1), u2);
        assert(u == seq![t[0]] + u2);
        assert(u.skip(1) =~= u2);
        assert(escape_char(t[0]) + escape_seq(u2) =~= t);
    }
}

} // verus!

verus! {

/// Prepends already-decoded output to a pending decode result.
pub open spec fn prepend_chars(p: Seq<char>, rest: Option<Seq<char>>) -> Option<Seq<char>> {
    match rest {
        Some(t) => Some(p + t),
        None => None,
    }
}

proof fn lemma_prepend_step(prev: Seq<char>, c: char, tail: Option<Seq<char>>)
    ensures
        prepend_chars(prev + seq![c], tail) == prepend_chars(prev, cons_char(c, tail)),
{
    match tail {
        Some(t) => {
            assert((prev + seq![c]) + t =~= prev + (seq![c] + t));
        },
        None => {
        },
    }
}

/// Decodes the escaped text in `s[from..to]`, failing where the spec does.
#[verifier::loop_isolation(false)]
pub fn unescape_range(s: &Vec<char>, from: usize, to: usize) -> (r: Option<Vec<char>>)
    requires
        from <= to <= s.len(),
    ensures
        match r {
            Some(v) => unescape_seq(s@.subrange(from as int, to as int)) == Some(v@),
            None => unescape_seq(s@.subrange(from as int, to as int)) is None,
        },
{
    let ghost whole = s@.subrange(from as int, to as int);
    let mut out: Vec<char> = Vec::new();
    let mut i = from;
    proof {
        assert(out@ =~= Seq::<char>::empty());
        assert(Seq::<char>::empty() + whole =~= whole);
    }
    while i < to
        invariant
            from <= i <= to <= s.len(),
            prepend_chars(out@, unescape_seq(s@.subrange(i as int, to as int)))
                == unescape_seq(whole),
        decreases to - i,
    {
        let ghost sub = s@.subrange(i as int, to as int);
        let ghost prev = out@;
        let c = s[i];
        proof {
            assert(sub[0] == s@[i as int]);
            if to - i >= 2 {
                assert(sub[1] == s@[i + 1]);
            }
            if to - i >= 3 {
                assert(sub[2] == s@[i + 2]);
            }
            if to - i >= 4 {
                assert(sub[3] == s@[i + 3]);
            }
            if to - i >= 5 {
                assert(sub[4] == s@[i + 4]);
            }
            if to - i >= 6 {
                assert(sub[5] == s@[i + 5]);
            }
        }
        if c == '&' {
            if to - i >= 4 && s[i + 1] == 'l' && s[i + 2] == 't' && s[i + 3] == ';' {
                out.push('<');
                proof {
                    assert(sub.subrange(0, 4) =~= seq!['&', 'l', 't', ';']);
                    assert(sub.skip(4) =~= s@.subrange(i + 4, to as int));
                    lemma_prepend_step(prev, '<', unescape_seq(s@.subrange(i + 4, to as int)));
                }
                i = i + 4;
            } else if to - i >= 4 && s[i + 1] == 'g' && s[i + 2] == 't' && s[i + 3] == ';' {
                out.push('>');
                proof {
                    assert(sub.subrange(0, 4) =~= seq!['&', 'g', 't', ';']);
                    assert(sub.skip(4) =~= s@.subrange(i + 4, to as int));
                    lemma_prepend_step(prev, '>', unescape_seq(s@.subrange(i + 4, to as int)));
                }
                i = i + 4;
            } else if to - i >= 5 && s[i + 1] == 'a' && s[i + 2] == 'm' && s[i + 3] == 'p' && s[i
                + 4] == ';' {
                out.push('&');
                proof {
                    assert(sub.subrange(0, 5) =~= seq!['&', 'a', 'm', 'p', ';']);
                    assert(sub.skip(5) =~= s@.subrange(i + 5, to as int));
                    lemma_prepend_step(prev, '&', unescape_seq(s@.subrange(i + 5, to as int)));
                }
                i = i + 5;
            } else if to - i >= 6 && s[i + 1] == 'q' && s[i + 2] == 'u' && s[i + 3] == 'o' && s[i
                + 4] == 't' && s[i + 5] == ';' {
                out.push('"');
                proof {
                    assert(sub.subrange(0, 6) =~= seq!['&', 'q', 'u', 'o', 't', ';']);
                    assert(sub.skip(6) =~= s@.subrange(i + 6, to as int));
                    lemma_prepend_step(prev, '"', unescape_seq(s@.subrange(i + 6, to as int)));
                }
                i = i + 6;
            } else if to - i >= 6 && s[i + 1] == 'a' && s[i + 2] == 'p' && s[i + 3] == 'o' && s[i
                + 4] == 's' && s[i + 5] == ';' {
                out.push('\'');
                proof {
                    assert(sub.subrange(0, 6) =~= seq!['&', 'a', 'p', 'o', 's', ';']);
                    assert(sub.skip(6) =~= s@.subrange(i + 6, to as int));
                    lemma_prepend_step(prev, '\'', unescape_seq(s@.subrange(i + 6, to as int)));
                }
                i = i + 6;
            } else {
                proof {
                    assert(unescape_seq(sub) is None);
                }
                return None;
            }
        } else if c == '<' || c == '>' || c == '"' || c == '\'' {
            proof {
                assert(unescape_seq(sub) is None);
            }
            return None;
        } else {
            out.push(c);
            proof {
                assert(sub.skip(1) =~= s@.subrange(i + 1, to as int));
                lemma_prepend_step(prev, c, unescape_seq(s@.subrange(i + 1, to as int)));
            }
            i = i + 1;
        }
    }
    proof {
        assert(s@.subrange(i as int, to as int).len() == 0);
        assert(out@ + Seq::<char>::empty() =~= out@);
    }
    Some(out)
}

} // verus!

verus! {

/// Whether a character may appear in an element or attribute name.
pub open spec fn is_name_char(c: char) -> bool {
    let u = c as u32;
    (97 <= u && u <= 122) || (65 <= u && u <= 90) || (48 <= u && u <= 57) || u == 45 || u == 95
}

fn name_char(c: char) -> (r: bool)
    ensures
        r == is_name_char(c),
{
    let u = c as u32;
    (97 <= u && u <= 122) || (65 <= u && u <= 90) || (48 <= u && u <= 57) || u == 45 || u == 95
}

/// The characters of `s[from..to]`, as a string.
#[verifier::loop_isolation(false)]
fn subvec_string(s: &Vec<char>, from: usize, to: usize) -> (r: String)
    requires
        from <= to <= s.len(),
    ensures
        r@ == s@.subrange(from as int, to as int),
{
    let mut v: Vec<char> = Vec::new();
    for i in from..to
        invariant
            from <= i <= to <= s.len(),
            v@ == s@.subrange(from as int, i as int),
    {
        v.push(s[i]);
        proof {
            assert(v@ =~= s@.subrange(from as int, i + 1));
        }
    }
    chars_to_string(&v)
}

/// Serializing the first `n` elements ignores a later push.
proof fn lemma_ser_seq_push(cs: Seq<ElemV>, x: ElemV, n: int)
    requires
        0 <= n <= cs.len(),
    ensures
        ser_seq(cs.push(x), n) == ser_seq(cs, n),
    decreases n,
{
    if n > 0 {
        lemma_ser_seq_push(cs, x, n - 1);
        assert(cs.push(x)[n - 1] == cs[n - 1]);
    }
}

/// Parses the opening of an element: bracket, tag, optional type
/// attribute and text content. On success the element has the parsed
/// tag, attribute and text and no children yet, and its open-tag-and-text
/// serialization is exactly the consumed range.
#[verifier::loop_isolation(false)]
#[verifier::rlimit(100)]
#[verifier::spinoff_prover]
fn parse_open(s: &Vec<char>, pos: usize, exp: Ghost<Option<ElemV>>) -> (r: Option<
    (Element, usize),
>)
    requires
        pos <= s.len(),
        exp@ matches Some(v) ==> wf_elem(v) && matches_at(s@, pos as int, ser_elem(v)),
    ensures
        r matches Some((e, t)) ==> {
            &&& pos < t <= s.len()
            &&& e@.children == Seq::<ElemV>::empty()
            &&& seq!['<'] + e@.tag + ser_attr(e@.type_attr) + seq!['>'] + escape_seq(e@.text)
                == s@.subrange(pos as int, t as int)
        },
        exp@ matches Some(v) ==> r matches Some(p) && p.0@.tag == v.tag && p.0@.type_attr
            == v.type_attr && p.0@.text == v.text && p.1 == pos + 2 + v.tag.len() + ser_attr(
            v.type_attr,
        ).len() + escape_seq(v.text).len(),
{
    broadcast use lemma_elems_view_len, lemma_elems_view_index;

    let ghost gv = exp@;
    proof {
        assert(!is_name_char(' ') && !is_name_char('>') && !is_name_char('"') && !is_name_char(
            '/',
        ) && !is_name_char('<'));
        match gv {
            Some(v) => {
                lemma_parse_layout(s@, pos as int, v);
                lemma_escape_no_lt(v.text);
                lemma_escape_round_trip(v.text);
                lemma_ser_elem_shape(v);
            },
            None => {},
        }
    }
    if pos >= s.len() || s[pos] != '<' {
        proof {
            match gv {
                Some(v) => {
                    assert(false);
                },
                None => {},
            }
        }
        return None;
    }
    let mut j = pos + 1;
    while j < s.len() && name_char(s[j])
        invariant
            pos + 1 <= j <= s.len(),
            forall|k: int| pos + 1 <= k < j ==> is_name_char(#[trigger] s@[k]),
        decreases s.len() - j,
    {
        j = j + 1;
    }
    proof {
        match gv {
            Some(v) => {
                let tl = v.tag.len() as int;
                assert(pos + 1 + tl < pos + ser_elem(v).len());
                match v.type_attr {
                    Some(a) => {
                        assert(s@[pos + 1 + tl] == ' ');
                    },
                    None => {
                        assert(s@[pos + 1 + tl] == '>');
                    },
                }
                lemma_name_run_stop(s@, pos + 1, v.tag, j as int);
            },
            None => {},
        }
    }
    if j == pos + 1 {
        proof {
            match gv {
                Some(v) => {
                    assert(false);
                },
                None => {},
            }
        }
        return None;
    }
    let tag = subvec_string(s, pos + 1, j);
    let mut type_attr: Option<String> = None;
    let mut p = j;
    if p < s.len() && s[p] == ' ' {
        proof {
            match gv {
                Some(v) => {
                    assert(v.type_attr is Some);
                },
                None => {},
            }
        }
        if s.len() - p < 8 || s[p + 1] != 't' || s[p + 2] != 'y' || s[p + 3] != 'p' || s[p + 4]
            != 'e' || s[p + 5] != '=' || s[p + 6] != '"' {
            proof {
                match gv {
                    Some(v) => {
                        let a = v.type_attr->Some_0;
                        assert(pos + 8 + v.tag.len() + a.len() + 1 <= pos + ser_elem(v).len());
                        assert(false);
                    },
                    None => {},
                }
            }
            return None;
        }
        let mut q = p + 7;
        while q < s.len() && name_char(s[q])
            invariant
                p + 7 <= q <= s.len(),
                forall|k: int| p + 7 <= k < q ==> is_name_char(#[trigger] s@[k]),
            decreases s.len() - q,
        {
            q = q + 1;
        }
        proof {
            match gv {
                Some(v) => {
                    let tl = v.tag.len() as int;
                    let a = v.type_attr->Some_0;
                    assert(s@[pos + 8 + tl + a.len() as int] == '"');
                    assert(pos + 8 + tl + a.len() < pos + ser_elem(v).len());
                    lemma_name_run_stop(s@, pos + 8 + tl, a, q as int);
                    assert(q == p + 7 + a.len());
                },
                None => {},
            }
        }
        if q >= s.len() || s[q] != '"' {
            proof {
                match gv {
                    Some(v) => {
                        assert(false);
                    },
                    None => {},
                }
            }
            return None;
        }
        type_attr = Some(subvec_string(s, p + 7, q));
        proof {
            assert(seq![' ', 't', 'y', 'p', 'e', '=', '"'] + s@.subrange(p + 7, q as int) + seq![
                '"'] =~= s@.subrange(p as int, q + 1));
        }
        p = q + 1;
    }
    proof {
        match gv {
            Some(v) => {
                assert(p == pos + 1 + v.tag.len() + ser_attr(v.type_attr).len());
                assert(s@[p as int] == '>');
                match v.type_attr {
                    Some(a) => {
                        assert(type_attr matches Some(x) && x@ == a);
                    },
                    None => {
                        assert(type_attr is None);
                    },
                }
            },
            None => {},
        }
    }
    if p >= s.len() || s[p] != '>' {
        proof {
            match gv {
                Some(v) => {
                    assert(false);
                },
                None => {},
            }
        }
        return None;
    }
    let text_start = p + 1;
    let mut t = text_start;
    while t < s.len() && s[t] != '<'
        invariant
            text_start <= t <= s.len(),
            forall|k: int| text_start <= k < t ==> s@[k] != '<',
        decreases s.len() - t,
    {
        t = t + 1;
    }
    proof {
        match gv {
            Some(v) => {
                let el = escape_seq(v.text).len() as int;
                let tail = ser_seq_from(v.children, 0) + close_seq(v.tag);
                assert(s@.subrange(text_start + el, pos + ser_elem(v).len()) == tail);
                if v.children.len() > 0 {
                    assert(ser_seq_from(v.children, 0) == ser_elem(v.children[0]) + ser_seq_from(
                        v.children,
                        1,
                    ));
                    lemma_ser_elem_shape(v.children[0]);
                    assert(tail[0] == ser_elem(v.children[0])[0]);
                } else {
                    assert(ser_seq_from(v.children, 0) == Seq::<char>::empty());
                    assert(Seq::<char>::empty() + close_seq(v.tag) =~= close_seq(v.tag));
                    assert(tail[0] == '<');
                }
                assert(s@[text_start + el] == tail[0]);
                assert(text_start + el < pos + ser_elem(v).len());
                lemma_lt_run_stop(s@, text_start as int, escape_seq(v.text), t as int);
                assert(t == text_start + el);
            },
            None => {},
        }
    }
    if t >= s.len() {
        proof {
            match gv {
                Some(v) => {
                    assert(false);
                },
                None => {},
            }
        }
        return None;
    }
    let text_chars = match unescape_range(s, text_start, t) {
        Some(v) => v,
        None => {
            proof {
                match gv {
                    Some(v) => {
                        assert(s@.subrange(text_start as int, t as int) == escape_seq(v.text));
                        assert(false);
                    },
                    None => {},
                }
            }
            return None;
        },
    };
    proof {
        lemma_unescape_exact(s@.subrange(text_start as int, t as int), text_chars@);
        match gv {
            Some(v) => {
                assert(s@.subrange(text_start as int, t as int) == escape_seq(v.text));
                assert(text_chars@ == v.text);
            },
            None => {},
        }
    }
    let text = chars_to_string(&text_chars);
    let e = Element { tag, type_attr, text, children: Vec::new() };
    proof {
        assert(e@.children =~= Seq::<ElemV>::empty());
        assert(seq!['<'] + e@.tag + ser_attr(e@.type_attr) + seq!['>'] + escape_seq(e@.text)
            =~= s@.subrange(pos as int, t as int));
        match gv {
            Some(v) => {
                assert(e@.tag == v.tag);
                assert(e@.type_attr == v.type_attr);
                assert(e@.text == v.text);
            },
            None => {},
        }
    }
    Some((e, t))
}

/// Parses one element of the strict canonical form starting at `pos`.
/// A parsed element serializes back to exactly the consumed characters;
/// and where a canonical element's serialization is known to occur at
/// `pos` (the ghost expectation), the parse succeeds and yields exactly
/// that element.
#[verifier::loop_isolation(false)]
#[verifier::rlimit(100)]
#[verifier::spinoff_prover]
fn parse_elem(s: &Vec<char>, pos: usize, exp: Ghost<Option<ElemV>>) -> (r: Option<
    (Element, usize),
>)
    requires
        pos <= s.len(),
        exp@ matches Some(v) ==> wf_elem(v) && matches_at(s@, pos as int, ser_elem(v)),
    ensures
        r matches Some((e, end)) ==> pos < end <= s.len() && ser_elem(e@) == s@.subrange(
            pos as int,
            end as int,
        ),
        exp@ matches Some(p) ==> r matches Some(q) && q.0@ == p && q.1 == pos + ser_elem(
            p,
        ).len(),
    decreases s.len() - pos,
{
    broadcast use lemma_elems_view_len, lemma_elems_view_index;

    let ghost gv = exp@;
    proof {
        match gv {
            Some(v) => {
                lemma_parse_layout(s@, pos as int, v);
            },
            None => {},
        }
    }
    let (mut e, t) = match parse_open(s, pos, exp) {
        Some(x) => x,
        None => {
            proof {
                match gv {
                    Some(v) => {
                        assert(false);
                    },
                    None => {},
                }
            }
            return None;
        },
    };
    let tag_len = e.tag.as_str().unicode_len();
    let ghost header = s@.subrange(pos as int, t as int);
    proof {
        assert(ser_seq(e@.children, 0) == Seq::<char>::empty());
        assert(header + ser_seq(e@.children, 0) =~= header);
        match gv {
            Some(v) => {
                assert(e@.children =~= v.children.take(0));
                assert(s@.subrange(t as int, pos + ser_elem(v).len()) == ser_seq_from(
                    v.children,
                    0,
                ) + close_seq(v.tag));
            },
            None => {},
        }
    }
    let mut cur = t;
    while cur < s.len() && cur + 1 < s.len() && s[cur] == '<' && s[cur + 1] != '/'
        invariant
            t <= cur <= s.len(),
            tag_len == e@.tag.len(),
            header == s@.subrange(pos as int, t as int),
            seq!['<'] + e@.tag + ser_attr(e@.type_attr) + seq!['>'] + escape_seq(e@.text)
                == header,
            header + ser_seq(e@.children, e@.children.len() as int) =~= s@.subrange(
                pos as int,
                cur as int,
            ),
            gv matches Some(v) ==> {
                &&& e@.tag == v.tag
                &&& e@.type_attr == v.type_attr
                &&& e@.text == v.text
                &&& e@.children.len() <= v.children.len()
                &&& e@.children == v.children.take(e@.children.len() as int)
                &&& cur as int <= pos + ser_elem(v).len() <= s@.len()
                &&& s@.subrange(cur as int, pos + ser_elem(v).len()) == ser_seq_from(
                    v.children,
                    e@.children.len() as int,
                ) + close_seq(v.tag)
            },
        decreases s.len() - cur,
    {
        let ghost oldcs = e@.children;
        let ghost child_exp: Option<ElemV> = match gv {
            Some(v) => if oldcs.len() < v.children.len() {
                Some(v.children[oldcs.len() as int])
            } else {
                None
            },
            None => None,
        };
        proof {
            match gv {
                Some(v) => {
                    let k = oldcs.len() as int;
                    if k == v.children.len() {
                        assert(ser_seq_from(v.children, k) == Seq::<char>::empty());
                        assert(Seq::<char>::empty() + close_seq(v.tag) =~= close_seq(v.tag));
                        lemma_rest_close(s@, cur as int, pos + ser_elem(v).len(), v.tag);
                        assert(false);
                    }
                    assert(wf_elem(v.children[k]));
                    lemma_rest_child(s@, cur as int, pos + ser_elem(v).len(), v.children, k,
                        v.tag);
                },
                None => {},
            }
        }
        match parse_elem(s, cur, Ghost(child_exp)) {
            Some((child, end2)) => {
                let ghost childv = child@;
                e.push_child(child);
                proof {
                    lemma_ser_seq_push(oldcs, childv, oldcs.len() as int);
                    assert(e@.children[oldcs.len() as int] == childv);
                    assert(ser_seq(e@.children, e@.children.len() as int) == ser_seq(oldcs,
                        oldcs.len() as int) + ser_elem(childv));
                    assert(header + ser_seq(e@.children, e@.children.len() as int)
                        =~= s@.subrange(pos as int, end2 as int));
                    match gv {
                        Some(v) => {
                            let k = oldcs.len() as int;
                            lemma_rest_child(s@, cur as int, pos + ser_elem(v).len(), v.children,
                                k, v.tag);
                            assert(childv == v.children[k]);
                            assert(end2 == cur + ser_elem(v.children[k]).len());
                            assert(e@.children =~= v.children.take(k + 1));
                        },
                        None => {},
                    }
                }
                cur = end2;
            },
            None => {
                proof {
                    match gv {
                        Some(v) => {
                            assert(false);
                        },
                        None => {},
                    }
                }
                return None;
            },
        }
    }
    proof {
        match gv {
            Some(v) => {
                let k = e@.children.len() as int;
                if k < v.children.len() {
                    assert(wf_elem(v.children[k]));
                    lemma_rest_child(s@, cur as int, pos + ser_elem(v).len(), v.children, k,
                        v.tag);
                    assert(is_name_char(v.children[k].tag[0]));
                    assert(false);
                }
                assert(k == v.children.len());
                assert(ser_seq_from(v.children, k) == Seq::<char>::empty());
                assert(Seq::<char>::empty() + close_seq(v.tag) =~= close_seq(v.tag));
                lemma_rest_close(s@, cur as int, pos + ser_elem(v).len(), v.tag);
            },
            None => {},
        }
    }
    if cur >= s.len() || cur + 1 >= s.len() || s[cur] != '<' || s[cur + 1] != '/' {
        proof {
            match gv {
                Some(v) => {
                    assert(false);
                },
                None => {},
            }
        }
        return None;
    }
    let close_start = cur + 2;
    proof {
        match gv {
            Some(v) => {
                lemma_rest_close(s@, cur as int, pos + ser_elem(v).len(), v.tag);
                assert(tag_len == v.tag.len());
                assert(close_start + tag_len + 1 == pos + ser_elem(v).len());
            },
            None => {},
        }
    }
    if tag_len > s.len() - close_start {
        proof {
            match gv {
                Some(v) => {
                    assert(false);
                },
                None => {},
            }
        }
        return None;
    }
    if close_start + tag_len >= s.len() {
        proof {
            match gv {
                Some(v) => {
                    assert(false);
                },
                None => {},
            }
        }
        return None;
    }
    let close = subvec_string(s, close_start, close_start + tag_len);
    if !str_eq(close.as_str(), e.tag.as_str()) {
        proof {
            match gv {
                Some(v) => {
                    assert(close@ == v.tag);
                    assert(e@.tag == v.tag);
                    assert(false);
                },
                None => {},
            }
        }
        return None;
    }
    if s[close_start + tag_len] != '>' {
        proof {
            match gv {
                Some(v) => {
                    assert(false);
                },
                None => {},
            }
        }
        return None;
    }
    let end = close_start + tag_len + 1;
    proof {
        assert(s@.subrange(close_start as int, close_start as int + tag_len as int) == e@.tag);
        assert(seq!['<', '/'] + e@.tag + seq!['>'] =~= s@.subrange(cur as int, end as int));
        assert(ser_elem(e@) =~= s@.subrange(pos as int, end as int));
        match gv {
            Some(v) => {
                assert(e@.children =~= v.children);
                assert(e@ =~= v);
                assert(end == pos + ser_elem(v).len());
            },
            None => {},
        }
    }
    Some((e, end))
}



/// A maximal run of name characters stops exactly at the end of a known
/// name-character region followed by a non-name character.
proof fn lemma_name_run_stop(s: Seq<char>, lo: int, region: Seq<char>, j: int)
    requires
        0 <= lo,
        lo + region.len() < s.len(),
        s.subrange(lo, lo + region.len()) == region,
        forall|i: int| 0 <= i < region.len() ==> is_name_char(#[trigger] region[i]),
        !is_name_char(s[lo + region.len()]),
        lo <= j <= s.len(),
        forall|k: int| lo <= k < j ==> is_name_char(#[trigger] s[k]),
        j == s.len() || !is_name_char(s[j]),
    ensures
        j == lo + region.len(),
{
    assert forall|k: int| lo <= k < lo + region.len() implies is_name_char(#[trigger] s[k]) by {
        assert(s.subrange(lo, lo + region.len())[k - lo] == s[k]);
        assert(region[k - lo] == s[k]);
    }
    if j < lo + region.len() {
        assert(is_name_char(s[j]));
        assert(false);
    }
    if j > lo + region.len() {
        assert(is_name_char(s[lo + region.len()]));
        assert(false);
    }
}

/// A scan for an opening bracket stops exactly at the end of a known
/// bracket-free region followed by an opening bracket.
proof fn lemma_lt_run_stop(s: Seq<char>, lo: int, region: Seq<char>, j: int)
    requires
        0 <= lo,
        lo + region.len() < s.len(),
        s.subrange(lo, lo + region.len()) == region,
        forall|i: int| 0 <= i < region.len() ==> (#[trigger] region[i]) != '<',
        s[lo + region.len()] == '<',
        lo <= j <= s.len(),
        forall|k: int| lo <= k < j ==> (#[trigger] s[k]) != '<',
        j == s.len() || s[j] == '<',
    ensures
        j == lo + region.len(),
{
    assert forall|k: int| lo <= k < lo + region.len() implies (#[trigger] s[k]) != '<' by {
        assert(s.subrange(lo, lo + region.len())[k - lo] == s[k]);
        assert(region[k - lo] == s[k]);
    }
    if j < lo + region.len() {
        assert(s[j] != '<');
        assert(false);
    }
    if j > lo + region.len() {
        assert(s[lo + region.len()] != '<');
        assert(false);
    }
}

/// When the remainder at `cur` is the children from `k` on followed by
/// the close tag, and a child remains, that child's serialization occurs
/// at `cur` and the remainder after it drops one child.
proof fn lemma_rest_child(s: Seq<char>, cur: int, endp: int, cs: Seq<ElemV>, k: int, tag: Seq<
    char,
>)
    requires
        0 <= cur <= endp <= s.len(),
        s.subrange(cur, endp) == ser_seq_from(cs, k) + close_seq(tag),
        0 <= k < cs.len(),
    ensures
        matches_at(s, cur, ser_elem(cs[k])),
        s.subrange(cur + ser_elem(cs[k]).len(), endp) == ser_seq_from(cs, k + 1) + close_seq(tag),
        s[cur] == '<',
        cs[k].tag.len() > 0 ==> s[cur + 1] == cs[k].tag[0],
        cur + 1 < endp,
{
    let child = cs[k];
    let cl = ser_elem(child).len() as int;
    let tail = ser_seq_from(cs, k + 1) + close_seq(tag);
    let rest3 = ser_elem(child) + tail;
    assert(ser_seq_from(cs, k) == ser_elem(child) + ser_seq_from(cs, k + 1));
    assert((ser_elem(child) + ser_seq_from(cs, k + 1)) + close_seq(tag) =~= rest3);
    assert(s.subrange(cur, endp) == rest3);
    assert(endp - cur == cl + tail.len());
    assert forall|i: int| 0 <= i < endp - cur implies s[cur + i] == rest3[i] by {
        assert(s.subrange(cur, endp)[i] == s[cur + i]);
    }
    assert(s.subrange(cur, cur + cl) =~= ser_elem(child)) by {
        assert forall|i: int| 0 <= i < cl implies s.subrange(cur, cur + cl)[i] == ser_elem(
            child,
        )[i] by {
            assert(s.subrange(cur, cur + cl)[i] == s[cur + i]);
            assert(rest3[i] == ser_elem(child)[i]);
        }
    }
    assert(matches_at(s, cur, ser_elem(child)));
    assert(s.subrange(cur + cl, endp) =~= tail) by {
        assert forall|i: int| 0 <= i < tail.len() implies s.subrange(cur + cl, endp)[i]
            == tail[i] by {
            assert(s.subrange(cur + cl, endp)[i] == s[cur + cl + i]);
            assert(rest3[cl + i] == tail[i]);
        }
    }
    lemma_ser_elem_shape(child);
    assert(s[cur] == rest3[0]);
    assert(rest3[0] == ser_elem(child)[0]);
    if child.tag.len() > 0 {
        assert(s[cur + 1] == rest3[1]);
        assert(rest3[1] == ser_elem(child)[1]);
    }
}

/// When the remainder at `cur` is exactly the close tag, its characters
/// lie where the parser looks for them.
proof fn lemma_rest_close(s: Seq<char>, cur: int, endp: int, tag: Seq<char>)
    requires
        0 <= cur <= endp <= s.len(),
        s.subrange(cur, endp) == close_seq(tag),
    ensures
        endp == cur + 3 + tag.len(),
        s[cur] == '<',
        s[cur + 1] == '/',
        s.subrange(cur + 2, cur + 2 + tag.len()) == tag,
        s[cur + 2 + tag.len()] == '>',
{
    let cl = close_seq(tag);
    assert(cl.len() == 3 + tag.len());
    assert forall|i: int| 0 <= i < cl.len() implies s[cur + i] == cl[i] by {
        assert(s.subrange(cur, endp)[i] == s[cur + i]);
    }
    assert(s[cur] == cl[0]);
    assert(s[cur + 1] == cl[1]);
    assert(s.subrange(cur + 2, cur + 2 + tag.len()) =~= tag) by {
        assert forall|i: int| 0 <= i < tag.len() implies s.subrange(
            cur + 2,
            cur + 2 + tag.len(),
        )[i] == tag[i] by {
            assert(s.subrange(cur + 2, cur + 2 + tag.len())[i] == s[cur + 2 + i]);
            assert(cl[2 + i] == tag[i]);
        }
    }
    assert(s[cur + 2 + tag.len() as int] == cl[2 + tag.len() as int]);
    assert(cl[2 + tag.len() as int] == '>');
}

/// The canonical document of a character sequence: the canonical element
/// that serializes to exactly it, if one exists.
#[verifier::opaque]
pub open spec fn canonical_doc(s: Seq<char>) -> Option<ElemV> {
    if exists|v: ElemV| wf_elem(v) && ser_elem(v) == s {
        Some(choose|v: ElemV| wf_elem(v) && ser_elem(v) == s)
    } else {
        None
    }
}

/// Parses a whole document of the strict canonical form. A parsed
/// document serializes back to exactly the input.
pub fn parse_document(s: &str) -> (r: Result<Element, crate::error::Error>)
    ensures
        r matches Ok(e) ==> ser_elem(e@) == s@,
        r matches Err(e) ==> e matches crate::error::Error::MalformedDocument,
        canonical_doc(s@) matches Some(v) ==> r matches Ok(e) && e@ == v,
{
    let v = string_to_chars(s);
    proof {
        reveal(canonical_doc);
        match canonical_doc(s@) {
            Some(cv) => {
                assert(ser_elem(cv) == s@);
                assert(s@.subrange(0, s@.len() as int) =~= s@);
                assert(matches_at(v@, 0, ser_elem(cv)));
            },
            None => {},
        }
    }
    match parse_elem(&v, 0, Ghost(canonical_doc(s@))) {
        Some((e, end)) => {
            if end == v.len() {
                proof {
                    assert(v@.subrange(0, end as int) =~= s@);
                }
                Ok(e)
            } else {
                Err(crate::error::Error::MalformedDocument)
            }
        },
        None => Err(crate::error::Error::MalformedDocument),
    }
}

} // verus!

verus! {

/// Whether a sequence can stand in name position: nonempty, name
/// characters only.
pub open spec fn wf_name(t: Seq<char>) -> bool {
    t.len() > 0 && (forall|i: int| 0 <= i < t.len() ==> is_name_char(#[trigger] t[i]))
}

/// Whether an element is canonical: its tag is a name, its attribute
/// value is made of name characters, and every child is canonical.
/// Exactly the canonical elements serialize to documents the strict
/// parser accepts.
pub open spec fn wf_elem(e: ElemV) -> bool
    decreases e,
{
    &&& wf_name(e.tag)
    &&& match e.type_attr {
        Some(a) => forall|i: int| 0 <= i < a.len() ==> is_name_char(#[trigger] a[i]),
        None => true,
    }
    &&& forall|i: int| 0 <= i < e.children.len() ==> wf_elem(#[trigger] e.children[i])
}

/// Whether `t` occurs in `s` exactly at position `pos`.
pub open spec fn matches_at(s: Seq<char>, pos: int, t: Seq<char>) -> bool {
    0 <= pos && pos + t.len() <= s.len() && s.subrange(pos, pos + t.len()) == t
}

/// The closing tag of an element.
pub open spec fn close_seq(tag: Seq<char>) -> Seq<char> {
    seq!['<', '/'] + tag + seq!['>']
}

/// The serializations of the elements of `cs` from index `k` on.
pub open spec fn ser_seq_from(cs: Seq<ElemV>, k: int) -> Seq<char>
    decreases cs.len() - k,
{
    if k < 0 || k >= cs.len() {
        Seq::empty()
    } else {
        ser_elem(cs[k]) + ser_seq_from(cs, k + 1)
    }
}

/// The whole serialization splits at any index.
pub proof fn lemma_ser_split(cs: Seq<ElemV>, k: int)
    requires
        0 <= k <= cs.len(),
    ensures
        ser_seq(cs, cs.len() as int) == ser_seq(cs, k) + ser_seq_from(cs, k),
    decreases cs.len() - k,
{
    if k == cs.len() {
        assert(ser_seq_from(cs, k) == Seq::<char>::empty());
        assert(ser_seq(cs, cs.len() as int) + Seq::<char>::empty() =~= ser_seq(
            cs,
            cs.len() as int,
        ));
    } else {
        lemma_ser_split(cs, k + 1);
        assert(ser_seq(cs, k + 1) == ser_seq(cs, k) + ser_elem(cs[k]));
        assert(ser_seq_from(cs, k) == ser_elem(cs[k]) + ser_seq_from(cs, k + 1));
        assert((ser_seq(cs, k) + ser_elem(cs[k])) + ser_seq_from(cs, k + 1) =~= ser_seq(cs, k) + (
        ser_elem(cs[k]) + ser_seq_from(cs, k + 1)));
    }
}

/// Escaped text never contains an opening angle bracket.
pub proof fn lemma_escape_no_lt(u: Seq<char>)
    ensures
        forall|i: int| 0 <= i < escape_seq(u).len() ==> #[trigger] escape_seq(u)[i] != '<',
    decreases u.len(),
{
    if u.len() > 0 {
        lemma_escape_no_lt(u.skip(1));
        assert forall|i: int| 0 <= i < escape_seq(u).len() implies #[trigger] escape_seq(u)[i]
            != '<' by {
            let head = escape_char(u[0]);
            assert(escape_seq(u) == head + escape_seq(u.skip(1)));
            if i < head.len() {
                assert(escape_seq(u)[i] == head[i]);
            } else {
                assert(escape_seq(u)[i] == escape_seq(u.skip(1))[i - head.len()]);
            }
        }
    }
}

/// The serialization of an element: its total length, and its head.
pub proof fn lemma_ser_elem_shape(v: ElemV)
    ensures
        ser_elem(v).len() == 1 + v.tag.len() + ser_attr(v.type_attr).len() + 1 + escape_seq(
            v.text,
        ).len() + ser_seq(v.children, v.children.len() as int).len() + 2 + v.tag.len() + 1,
        ser_elem(v).len() >= 1 ==> ser_elem(v)[0] == '<',
        v.tag.len() > 0 ==> ser_elem(v).len() >= 2 && ser_elem(v)[0] == '<' && ser_elem(v)[1]
            == v.tag[0],
{
    let sv = ser_elem(v);
    assert(sv == seq!['<'] + v.tag + ser_attr(v.type_attr) + seq!['>'] + escape_seq(v.text)
        + ser_seq(v.children, v.children.len() as int) + seq!['<', '/'] + v.tag + seq!['>']);
    assert(seq!['<'].len() == 1 && seq!['>'].len() == 1 && seq!['<', '/'].len() == 2);
    assert(sv.len() == 1 + v.tag.len() + ser_attr(v.type_attr).len() + 1 + escape_seq(
        v.text,
    ).len() + ser_seq(v.children, v.children.len() as int).len() + 2 + v.tag.len() + 1);
    assert(sv[0] == '<');
    if v.tag.len() > 0 {
        assert(sv[1] == v.tag[0]);
    }
}

} // verus!

verus! {

/// Where each part of a canonical element's serialization lies in `s`
/// when the serialization occurs at `pos`: the open bracket, the tag, the
/// optional attribute, the closing bracket of the open tag, the escaped
/// text, and the children region followed by the close tag.
#[verifier::rlimit(100)]
#[verifier::spinoff_prover]
pub proof fn lemma_parse_layout(s: Seq<char>, pos: int, v: ElemV)
    requires
        wf_elem(v),
        matches_at(s, pos, ser_elem(v)),
    ensures
        pos + ser_elem(v).len() <= s.len(),
        ser_elem(v).len() == 1 + v.tag.len() + ser_attr(v.type_attr).len() + 1 + escape_seq(
            v.text,
        ).len() + ser_seq(v.children, v.children.len() as int).len() + 2 + v.tag.len() + 1,
        s[pos] == '<',
        s.subrange(pos + 1, pos + 1 + v.tag.len()) == v.tag,
        v.type_attr is None ==> s[pos + 1 + v.tag.len()] == '>',
        v.type_attr matches Some(a) ==> {
            &&& ser_attr(v.type_attr).len() == 8 + a.len()
            &&& s[pos + 1 + v.tag.len()] == ' '
            &&& s[pos + 2 + v.tag.len()] == 't'
            &&& s[pos + 3 + v.tag.len()] == 'y'
            &&& s[pos + 4 + v.tag.len()] == 'p'
            &&& s[pos + 5 + v.tag.len()] == 'e'
            &&& s[pos + 6 + v.tag.len()] == '='
            &&& s[pos + 7 + v.tag.len()] == '"'
            &&& s.subrange(pos + 8 + v.tag.len(), pos + 8 + v.tag.len() + a.len()) == a
            &&& s[pos + 8 + v.tag.len() + a.len()] == '"'
            &&& s[pos + 1 + v.tag.len() + ser_attr(v.type_attr).len()] == '>'
        },
        s.subrange(
            pos + 2 + v.tag.len() + ser_attr(v.type_attr).len(),
            pos + 2 + v.tag.len() + ser_attr(v.type_attr).len() + escape_seq(v.text).len(),
        ) == escape_seq(v.text),
        s.subrange(
            pos + 2 + v.tag.len() + ser_attr(v.type_attr).len() + escape_seq(v.text).len(),
            pos + ser_elem(v).len(),
        ) == ser_seq_from(v.children, 0) + close_seq(v.tag),
{
    let sv = ser_elem(v);
    let tl = v.tag.len() as int;
    let attr = ser_attr(v.type_attr);
    let et = escape_seq(v.text);
    let kids = ser_seq(v.children, v.children.len() as int);
    lemma_ser_elem_shape(v);
    assert(sv == seq!['<'] + v.tag + attr + seq!['>'] + et + kids + seq!['<', '/'] + v.tag
        + seq!['>']);
    assert forall|i: int| 0 <= i < sv.len() implies s[pos + i] == sv[i] by {
        assert(s.subrange(pos, pos + sv.len())[i] == s[pos + i]);
    }
    assert(s[pos] == sv[0]);
    assert(s.subrange(pos + 1, pos + 1 + tl) =~= v.tag) by {
        assert forall|i: int| 0 <= i < tl implies s.subrange(pos + 1, pos + 1 + tl)[i]
            == v.tag[i] by {
            assert(s.subrange(pos + 1, pos + 1 + tl)[i] == s[pos + 1 + i]);
            assert(sv[1 + i] == v.tag[i]);
        }
    }
    match v.type_attr {
        None => {
            assert(attr.len() == 0);
            assert(sv[1 + tl] == '>');
        },
        Some(a) => {
            assert(attr == seq![' ', 't', 'y', 'p', 'e', '=', '"'] + a + seq!['"']);
            assert(attr.len() == 8 + a.len());
            assert(sv[1 + tl] == attr[0]);
            assert(sv[2 + tl] == attr[1]);
            assert(sv[3 + tl] == attr[2]);
            assert(sv[4 + tl] == attr[3]);
            assert(sv[5 + tl] == attr[4]);
            assert(sv[6 + tl] == attr[5]);
            assert(sv[7 + tl] == attr[6]);
            assert(s.subrange(pos + 8 + tl, pos + 8 + tl + a.len()) =~= a) by {
                assert forall|i: int| 0 <= i < a.len() implies s.subrange(
                    pos + 8 + tl,
                    pos + 8 + tl + a.len(),
                )[i] == a[i] by {
                    assert(s.subrange(pos + 8 + tl, pos + 8 + tl + a.len())[i] == s[pos + 8 + tl
                        + i]);
                    assert(sv[8 + tl + i] == attr[7 + i]);
                    assert(attr[7 + i] == a[i]);
                }
            }
            assert(sv[8 + tl + a.len() as int] == attr[7 + a.len() as int]);
            assert(attr[7 + a.len() as int] == '"');
            assert(sv[1 + tl + attr.len()] == '>');
        },
    }
    let toff = 2 + tl + attr.len() as int;
    assert(s.subrange(pos + toff, pos + toff + et.len()) =~= et) by {
        assert forall|i: int| 0 <= i < et.len() implies s.subrange(
            pos + toff,
            pos + toff + et.len(),
        )[i] == et[i] by {
            assert(s.subrange(pos + toff, pos + toff + et.len())[i] == s[pos + toff + i]);
            assert(sv[toff + i] == et[i]);
        }
    }
    let koff = toff + et.len() as int;
    lemma_ser_split(v.children, 0);
    assert(ser_seq(v.children, 0) == Seq::<char>::empty());
    assert(Seq::<char>::empty() + ser_seq_from(v.children, 0) =~= ser_seq_from(v.children, 0));
    let tail = ser_seq_from(v.children, 0) + close_seq(v.tag);
    assert(tail =~= kids + (seq!['<', '/'] + v.tag + seq!['>']));
    assert(s.subrange(pos + koff, pos + sv.len()) =~= tail) by {
        assert forall|i: int| 0 <= i < tail.len() implies s.subrange(pos + koff, pos + sv.len())[i]
            == tail[i] by {
            assert(s.subrange(pos + koff, pos + sv.len())[i] == s[pos + koff + i]);
            assert(sv[koff + i] == tail[i]);
        }
    }
}

} // verus!

verus! {

/// Two name runs over the same characters, each ended by a non-name
/// character, are the same run.
proof fn lemma_name_run_eq(s: Seq<char>, lo: int, t1: Seq<char>, t2: Seq<char>)
    requires
        0 <= lo,
        lo + t1.len() < s.len(),
        lo + t2.len() < s.len(),
        s.subrange(lo, lo + t1.len()) == t1,
        s.subrange(lo, lo + t2.len()) == t2,
        forall|i: int| 0 <= i < t1.len() ==> is_name_char(#[trigger] t1[i]),
        forall|i: int| 0 <= i < t2.len() ==> is_name_char(#[trigger] t2[i]),
        !is_name_char(s[lo + t1.len()]),
        !is_name_char(s[lo + t2.len()]),
    ensures
        t1 == t2,
{
    if t1.len() < t2.len() {
        assert(s.subrange(lo, lo + t2.len())[t1.len() as int] == s[lo + t1.len()]);
        assert(is_name_char(t2[t1.len() as int]));
        assert(false);
    }
    if t2.len() < t1.len() {
        assert(s.subrange(lo, lo + t1.len())[t2.len() as int] == s[lo + t2.len()]);
        assert(is_name_char(t1[t2.len() as int]));
        assert(false);
    }
    assert(t1 =~= t2);
}

/// Two bracket-free runs over the same characters, each ended by an
/// opening bracket, are the same run.
proof fn lemma_lt_run_eq(s: Seq<char>, lo: int, t1: Seq<char>, t2: Seq<char>)
    requires
        0 <= lo,
        lo + t1.len() < s.len(),
        lo + t2.len() < s.len(),
        s.subrange(lo, lo + t1.len()) == t1,
        s.subrange(lo, lo + t2.len()) == t2,
        forall|i: int| 0 <= i < t1.len() ==> (#[trigger] t1[i]) != '<',
        forall|i: int| 0 <= i < t2.len() ==> (#[trigger] t2[i]) != '<',
        s[lo + t1.len()] == '<',
        s[lo + t2.len()] == '<',
    ensures
        t1 == t2,
{
    if t1.len() < t2.len() {
        assert(s.subrange(lo, lo + t2.len())[t1.len() as int] == s[lo + t1.len()]);
        assert(t2[t1.len() as int] != '<');
        assert(false);
    }
    if t2.len() < t1.len() {
        assert(s.subrange(lo, lo + t1.len())[t2.len() as int] == s[lo + t2.len()]);
        assert(t1[t2.len() as int] != '<');
        assert(false);
    }
    assert(t1 =~= t2);
}

} // verus!

verus! {

/// When one element's serialization followed by a remainder fills the
/// tail of `S` in two canonical ways, the elements and remainders agree.
#[verifier::rlimit(100)]
#[verifier::spinoff_prover]
proof fn lemma_ser_prefix(S: Seq<char>, p: int, a: ElemV, ra: Seq<char>, b: ElemV, rb: Seq<char>)
    requires
        0 <= p <= S.len(),
        wf_elem(a),
        wf_elem(b),
        S.subrange(p, S.len() as int) == ser_elem(a) + ra,
        S.subrange(p, S.len() as int) == ser_elem(b) + rb,
    ensures
        a == b,
        ra == rb,
    decreases a, 0int,
{
    assert(!is_name_char(' ') && !is_name_char('>') && !is_name_char('"') && !is_name_char('/'));
    let sa = ser_elem(a);
    let sb = ser_elem(b);
    assert(S.subrange(p, S.len() as int).len() == S.len() - p);
    assert(S.len() - p == sa.len() + ra.len());
    assert(S.len() - p == sb.len() + rb.len());
    assert forall|i: int| 0 <= i < sa.len() implies S[p + i] == sa[i] by {
        assert(S.subrange(p, S.len() as int)[i] == S[p + i]);
        assert((sa + ra)[i] == sa[i]);
    }
    assert forall|i: int| 0 <= i < sb.len() implies S[p + i] == sb[i] by {
        assert(S.subrange(p, S.len() as int)[i] == S[p + i]);
        assert((sb + rb)[i] == sb[i]);
    }
    assert(S.subrange(p, p + sa.len()) =~= sa);
    assert(S.subrange(p, p + sb.len()) =~= sb);
    assert(matches_at(S, p, sa));
    assert(matches_at(S, p, sb));
    lemma_parse_layout(S, p, a);
    lemma_parse_layout(S, p, b);
    let ta = a.tag;
    let tb = b.tag;
    assert(p + 1 + ta.len() < S.len() && !is_name_char(S[p + 1 + ta.len()])) by {
        match a.type_attr {
            Some(x) => {
            },
            None => {
            },
        }
    }
    assert(p + 1 + tb.len() < S.len() && !is_name_char(S[p + 1 + tb.len()])) by {
        match b.type_attr {
            Some(x) => {
            },
            None => {
            },
        }
    }
    lemma_name_run_eq(S, p + 1, ta, tb);
    let tl = ta.len() as int;
    match (a.type_attr, b.type_attr) {
        (None, Some(x)) => {
            assert(S[p + 1 + tl] == '>');
            assert(S[p + 1 + tl] == ' ');
            assert(false);
        },
        (Some(x), None) => {
            assert(S[p + 1 + tl] == ' ');
            assert(S[p + 1 + tl] == '>');
            assert(false);
        },
        (Some(xa), Some(xb)) => {
            lemma_name_run_eq(S, p + 8 + tl, xa, xb);
        },
        (None, None) => {
        },
    }
    assert(a.type_attr == b.type_attr);
    let al = ser_attr(a.type_attr).len() as int;
    let toff = 2 + tl + al;
    let ea = escape_seq(a.text);
    let eb = escape_seq(b.text);
    lemma_escape_no_lt(a.text);
    lemma_escape_no_lt(b.text);
    let taila = ser_seq_from(a.children, 0) + close_seq(ta);
    let tailb = ser_seq_from(b.children, 0) + close_seq(tb);
    assert(S[p + toff + ea.len()] == '<') by {
        if a.children.len() > 0 {
            assert(ser_seq_from(a.children, 0) == ser_elem(a.children[0]) + ser_seq_from(
                a.children,
                1,
            ));
            lemma_ser_elem_shape(a.children[0]);
            assert(taila[0] == ser_elem(a.children[0])[0]);
        } else {
            assert(ser_seq_from(a.children, 0) == Seq::<char>::empty());
            assert(Seq::<char>::empty() + close_seq(ta) =~= close_seq(ta));
            assert(taila[0] == '<');
        }
        assert(S.subrange(p + toff + ea.len(), p + sa.len())[0] == S[p + toff + ea.len()]);
    }
    assert(S[p + toff + eb.len()] == '<') by {
        if b.children.len() > 0 {
            assert(ser_seq_from(b.children, 0) == ser_elem(b.children[0]) + ser_seq_from(
                b.children,
                1,
            ));
            lemma_ser_elem_shape(b.children[0]);
            assert(tailb[0] == ser_elem(b.children[0])[0]);
        } else {
            assert(ser_seq_from(b.children, 0) == Seq::<char>::empty());
            assert(Seq::<char>::empty() + close_seq(tb) =~= close_seq(tb));
            assert(tailb[0] == '<');
        }
        assert(S.subrange(p + toff + eb.len(), p + sb.len())[0] == S[p + toff + eb.len()]);
    }
    lemma_lt_run_eq(S, p + toff, ea, eb);
    lemma_escape_round_trip(a.text);
    lemma_escape_round_trip(b.text);
    assert(a.text == b.text);
    let koff = toff + ea.len() as int;
    assert(S.subrange(p + koff, S.len() as int) =~= ser_seq_from(a.children, 0) + (close_seq(ta)
        + ra)) by {
        let want = ser_seq_from(a.children, 0) + (close_seq(ta) + ra);
        assert(taila + ra =~= want);
        assert forall|i: int| 0 <= i < want.len() implies S.subrange(p + koff, S.len() as int)[i]
            == want[i] by {
            assert(S.subrange(p + koff, S.len() as int)[i] == S[p + koff + i]);
            assert(S.subrange(p, S.len() as int)[koff + i] == S[p + koff + i]);
            if koff + i < sa.len() {
                assert((sa + ra)[koff + i] == sa[koff + i]);
                assert(S.subrange(p + koff, p + sa.len()) == taila);
                assert(S.subrange(p + koff, p + sa.len())[i] == S[p + koff + i]);
                assert(taila[i] == (taila + ra)[i]);
            } else {
                assert((sa + ra)[koff + i] == ra[koff + i - sa.len()]);
                assert((taila + ra)[i] == ra[i - taila.len()]);
            }
        }
    }
    assert(S.subrange(p + koff, S.len() as int) =~= ser_seq_from(b.children, 0) + (close_seq(tb)
        + rb)) by {
        let want = ser_seq_from(b.children, 0) + (close_seq(tb) + rb);
        assert(tailb + rb =~= want);
        assert forall|i: int| 0 <= i < want.len() implies S.subrange(p + koff, S.len() as int)[i]
            == want[i] by {
            assert(S.subrange(p + koff, S.len() as int)[i] == S[p + koff + i]);
            assert(S.subrange(p, S.len() as int)[koff + i] == S[p + koff + i]);
            if koff + i < sb.len() {
                assert((sb + rb)[koff + i] == sb[koff + i]);
                assert(S.subrange(p + koff, p + sb.len()) == tailb);
                assert(S.subrange(p + koff, p + sb.len())[i] == S[p + koff + i]);
                assert(tailb[i] == (tailb + rb)[i]);
            } else {
                assert((sb + rb)[koff + i] == rb[koff + i - sb.len()]);
                assert((tailb + rb)[i] == rb[i - tailb.len()]);
            }
        }
    }
    assert(close_seq(ta).len() >= 2 && close_seq(ta)[0] == '<' && close_seq(ta)[1] == '/');
    assert((close_seq(ta) + ra).len() >= 2 && (close_seq(ta) + ra)[0] == '<' && (close_seq(ta)
        + ra)[1] == '/');
    assert((close_seq(tb) + rb).len() >= 2 && (close_seq(tb) + rb)[0] == '<' && (close_seq(tb)
        + rb)[1] == '/');
    lemma_children_prefix(S, p + koff, a.children, 0, close_seq(ta) + ra, b.children, 0,
        close_seq(tb) + rb);
    assert(a.children.skip(0) =~= a.children);
    assert(b.children.skip(0) =~= b.children);
    assert(a.children == b.children);
    assert(ra =~= rb) by {
        let ca = close_seq(ta) + ra;
        let cb = close_seq(tb) + rb;
        assert(ca == cb);
        assert forall|i: int| 0 <= i < ra.len() implies ra[i] == rb[i] by {
            assert(ca[close_seq(ta).len() + i] == ra[i]);
            assert(cb[close_seq(tb).len() + i] == rb[i]);
        }
    }
    assert(a =~= b);
}

/// When the remaining children plus a close-tag marker fill the tail of
/// `S` in two canonical ways, the child lists and markers agree.
#[verifier::rlimit(100)]
#[verifier::spinoff_prover]
proof fn lemma_children_prefix(
    S: Seq<char>,
    p: int,
    csa: Seq<ElemV>,
    ka: int,
    xa: Seq<char>,
    csb: Seq<ElemV>,
    kb: int,
    xb: Seq<char>,
)
    requires
        0 <= p <= S.len(),
        0 <= ka <= csa.len(),
        0 <= kb <= csb.len(),
        forall|i: int| 0 <= i < csa.len() ==> wf_elem(#[trigger] csa[i]),
        forall|i: int| 0 <= i < csb.len() ==> wf_elem(#[trigger] csb[i]),
        S.subrange(p, S.len() as int) == ser_seq_from(csa, ka) + xa,
        S.subrange(p, S.len() as int) == ser_seq_from(csb, kb) + xb,
        xa.len() >= 2 && xa[0] == '<' && xa[1] == '/',
        xb.len() >= 2 && xb[0] == '<' && xb[1] == '/',
    ensures
        csa.skip(ka) == csb.skip(kb),
        xa == xb,
    decreases csa, csa.len() - ka,
{
    assert(!is_name_char('/'));
    assert(S.subrange(p, S.len() as int).len() == S.len() - p);
    assert(S.len() - p == ser_seq_from(csa, ka).len() + xa.len());
    assert(S.len() - p == ser_seq_from(csb, kb).len() + xb.len());
    if ka == csa.len() {
        assert(ser_seq_from(csa, ka) == Seq::<char>::empty());
        assert(Seq::<char>::empty() + xa =~= xa);
        assert(S.subrange(p, S.len() as int) == xa);
        if kb < csb.len() {
            let cb = csb[kb];
            assert(wf_elem(cb));
            lemma_ser_elem_shape(cb);
            assert(ser_seq_from(csb, kb) == ser_elem(cb) + ser_seq_from(csb, kb + 1));
            assert((ser_seq_from(csb, kb) + xb)[1] == ser_elem(cb)[1]);
            assert(S.subrange(p, S.len() as int)[1] == xa[1]);
            assert(is_name_char(cb.tag[0]));
            assert(false);
        }
        assert(ser_seq_from(csb, kb) == Seq::<char>::empty());
        assert(Seq::<char>::empty() + xb =~= xb);
        assert(xa == xb);
        assert(csa.skip(ka) =~= csb.skip(kb));
    } else {
        let ca = csa[ka];
        assert(wf_elem(ca));
        lemma_ser_elem_shape(ca);
        if kb == csb.len() {
            assert(ser_seq_from(csb, kb) == Seq::<char>::empty());
            assert(Seq::<char>::empty() + xb =~= xb);
            assert(S.subrange(p, S.len() as int) == xb);
            assert(ser_seq_from(csa, ka) == ser_elem(ca) + ser_seq_from(csa, ka + 1));
            assert((ser_seq_from(csa, ka) + xa)[1] == ser_elem(ca)[1]);
            assert(S.subrange(p, S.len() as int)[1] == xb[1]);
            assert(is_name_char(ca.tag[0]));
            assert(false);
        }
        let cb = csb[kb];
        assert(wf_elem(cb));
        assert(ser_seq_from(csa, ka) == ser_elem(ca) + ser_seq_from(csa, ka + 1));
        assert(ser_seq_from(csb, kb) == ser_elem(cb) + ser_seq_from(csb, kb + 1));
        assert((ser_elem(ca) + ser_seq_from(csa, ka + 1)) + xa =~= ser_elem(ca) + (ser_seq_from(
            csa,
            ka + 1,
        ) + xa));
        assert((ser_elem(cb) + ser_seq_from(csb, kb + 1)) + xb =~= ser_elem(cb) + (ser_seq_from(
            csb,
            kb + 1,
        ) + xb));
        lemma_ser_prefix(S, p, ca, ser_seq_from(csa, ka + 1) + xa, cb, ser_seq_from(csb, kb + 1)
            + xb);
        let cl = ser_elem(ca).len() as int;
        assert(S.subrange(p + cl, S.len() as int) =~= ser_seq_from(csa, ka + 1) + xa) by {
            let want = ser_seq_from(csa, ka + 1) + xa;
            assert forall|i: int| 0 <= i < want.len() implies S.subrange(
                p + cl,
                S.len() as int,
            )[i] == want[i] by {
                assert(S.subrange(p + cl, S.len() as int)[i] == S[p + cl + i]);
                assert(S.subrange(p, S.len() as int)[cl + i] == S[p + cl + i]);
                assert((ser_elem(ca) + want)[cl + i] == want[i]);
            }
        }
        assert(S.subrange(p + cl, S.len() as int) =~= ser_seq_from(csb, kb + 1) + xb) by {
            let want = ser_seq_from(csb, kb + 1) + xb;
            assert(ser_elem(cb).len() == cl);
            assert forall|i: int| 0 <= i < want.len() implies S.subrange(
                p + cl,
                S.len() as int,
            )[i] == want[i] by {
                assert(S.subrange(p + cl, S.len() as int)[i] == S[p + cl + i]);
                assert(S.subrange(p, S.len() as int)[cl + i] == S[p + cl + i]);
                assert((ser_elem(cb) + want)[cl + i] == want[i]);
            }
        }
        lemma_children_prefix(S, p + cl, csa, ka + 1, xa, csb, kb + 1, xb);
        assert(csa.skip(ka) =~= csb.skip(kb)) by {
            assert(csa.skip(ka + 1) == csb.skip(kb + 1));
            assert(csa.skip(ka).len() == csb.skip(kb).len()) by {
                assert(csa.skip(ka + 1).len() == csb.skip(kb + 1).len());
            }
            assert forall|i: int| 0 <= i < csa.skip(ka).len() implies csa.skip(ka)[i] == csb.skip(
                kb,
            )[i] by {
                if i == 0 {
                    assert(csa.skip(ka)[0] == ca);
                    assert(csb.skip(kb)[0] == cb);
                } else {
                    assert(csa.skip(ka)[i] == csa[ka + i]);
                    assert(csa.skip(ka + 1)[i - 1] == csa[ka + i]);
                    assert(csb.skip(kb + 1)[i - 1] == csb[kb + i]);
                    assert(csb.skip(kb)[i] == csb[kb + i]);
                }
            }
        }
    }
}

/// Law: serialization is injective on canonical elements — a canonical
/// document denotes exactly one element.
pub proof fn lemma_ser_injective(a: ElemV, b: ElemV)
    requires
        wf_elem(a),
        wf_elem(b),
        ser_elem(a) == ser_elem(b),
    ensures
        a == b,
{
    let S = ser_elem(a);
    assert(S.subrange(0, S.len() as int) =~= S);
    assert(ser_elem(a) + Seq::<char>::empty() =~= S);
    assert(ser_elem(b) + Seq::<char>::empty() =~= S);
    lemma_ser_prefix(S, 0, a, Seq::empty(), b, Seq::empty());
}

/// Law: the canonical document of a canonical element's serialization is
/// that element itself, so parsing it yields the element back.
pub proof fn lemma_canonical_of_ser(v: ElemV)
    requires
        wf_elem(v),
    ensures
        canonical_doc(ser_elem(v)) == Some(v),
{
    reveal(canonical_doc);
    assert(wf_elem(v) && ser_elem(v) == ser_elem(v));
    let cv = choose|x: ElemV| wf_elem(x) && ser_elem(x) == ser_elem(v);
    lemma_ser_injective(cv, v);
}

} // verus!

verus! {

/// Elements of a concatenation are canonical when both parts' are.
pub proof fn lemma_wf_append(cs1: Seq<ElemV>, cs2: Seq<ElemV>)
    requires
        forall|i: int| 0 <= i < cs1.len() ==> wf_elem(#[trigger] cs1[i]),
        forall|i: int| 0 <= i < cs2.len() ==> wf_elem(#[trigger] cs2[i]),
    ensures
        forall|i: int| 0 <= i < (cs1 + cs2).len() ==> wf_elem(#[trigger] (cs1 + cs2)[i]),
{
    assert forall|i: int| 0 <= i < (cs1 + cs2).len() implies wf_elem(#[trigger] (cs1 + cs2)[i]) by {
        if i < cs1.len() {
            assert((cs1 + cs2)[i] == cs1[i]);
        } else {
            assert((cs1 + cs2)[i] == cs2[i - cs1.len()]);
        }
    }
}

/// An optional leaf segment holds only canonical elements when its tag
/// is a name.
pub proof fn lemma_wf_opt_leaf(t: Seq<char>, v: Option<String>)
    requires
        wf_name(t),
    ensures
        forall|i: int| 0 <= i < opt_leaf_v(t, v).len() ==> wf_elem(#[trigger] opt_leaf_v(t, v)[i]),
{
    match v {
        Some(s) => {
            assert(opt_leaf_v(t, v)[0] == leaf_v(t, s@));
            assert(wf_elem(leaf_v(t, s@)));
        },
        None => {},
    }
}

} // verus!
