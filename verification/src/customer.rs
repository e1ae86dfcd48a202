//! The customer record and its codec. Besides scalar fields a customer
//! may carry a nested credit card and an open-ended mapping of custom
//! fields, each key becoming its own child tag. Keys are emitted verbatim,
//! so callers are responsible for using valid element names.

use vstd::prelude::*;

use crate::credit_card::{credit_card_elem, credit_card_matches, lemma_credit_card_round_trip,
    lemma_credit_card_wf, CreditCard};
use crate::markup::{canonical_doc, child_text, chosen_name, find_child, find_in, leaf_v,
    lemma_canonical_of_ser, lemma_find_append, lemma_find_opt_leaf, lemma_wf_append,
    lemma_wf_opt_leaf, opt_leaf_v, opt_view, ser_elem, wf_elem, wf_name, Element, ElemV};

verus! {

broadcast use vstd::string::group_string_axioms;

/// A customer; every field is optional. Custom fields are ordered
/// key/value pairs; on duplicate keys the first occurrence is found.
#[derive(Debug, Default)]
pub struct Customer {
    pub company: Option<String>,
    pub email: Option<String>,
    pub fax: Option<String>,
    pub first_name: Option<String>,
    pub id: Option<String>,
    pub last_name: Option<String>,
    pub payment_method_nonce: Option<String>,
    pub phone: Option<String>,
    pub website: Option<String>,
    pub credit_card: Option<CreditCard>,
    pub custom_fields: Option<Vec<(String, String)>>,
}

/// One leaf per custom-field pair, in order.
pub open spec fn pairs_children(ps: Seq<(String, String)>) -> Seq<ElemV>
    decreases ps.len(),
{
    if ps.len() == 0 {
        Seq::empty()
    } else {
        pairs_children(ps.drop_last()).push(leaf_v(ps.last().0@, ps.last().1@))
    }
}

pub broadcast proof fn lemma_pairs_children_len(ps: Seq<(String, String)>)
    ensures
        (#[trigger] pairs_children(ps)).len() == ps.len(),
    decreases ps.len(),
{
    if ps.len() > 0 {
        lemma_pairs_children_len(ps.drop_last());
    }
}

pub broadcast proof fn lemma_pairs_children_index(ps: Seq<(String, String)>, i: int)
    requires
        0 <= i < ps.len(),
    ensures
        #[trigger] pairs_children(ps)[i] == leaf_v(ps[i].0@, ps[i].1@),
    decreases ps.len(),
{
    lemma_pairs_children_len(ps);
    lemma_pairs_children_len(ps.drop_last());
    assert(pairs_children(ps) == pairs_children(ps.drop_last()).push(leaf_v(ps.last().0@,
        ps.last().1@)));
    if i < ps.len() - 1 {
        lemma_pairs_children_index(ps.drop_last(), i);
        assert(ps.drop_last()[i] == ps[i]);
    } else {
        assert(ps.last() == ps[i]);
    }
}

/// The container element the custom fields are wrapped in.
pub open spec fn fields_elem(ps: Seq<(String, String)>) -> ElemV {
    ElemV {
        tag: "custom_fields"@,
        type_attr: None,
        text: Seq::empty(),
        children: pairs_children(ps),
    }
}

/// Whether the pairs are, one for one and in order, the tag/text of the
/// given children.
pub open spec fn pairs_match(ps: Seq<(String, String)>, cs: Seq<ElemV>) -> bool {
    &&& ps.len() == cs.len()
    &&& forall|i: int| 0 <= i < ps.len() ==> (#[trigger] ps[i]).0@ == cs[i].tag && ps[i].1@
        == cs[i].text
}

/// The custom-field pairs match their own encoding.
pub proof fn lemma_pairs_round_trip(ps: Seq<(String, String)>)
    ensures
        pairs_match(ps, pairs_children(ps)),
{
    broadcast use lemma_pairs_children_len, lemma_pairs_children_index;

    assert forall|i: int| 0 <= i < ps.len() implies (#[trigger] ps[i]).0@ == pairs_children(
        ps,
    )[i].tag && ps[i].1@ == pairs_children(ps)[i].text by {
        assert(pairs_children(ps)[i] == leaf_v(ps[i].0@, ps[i].1@));
    }
}

/// Zero or one nested card elements, depending on presence.
pub open spec fn opt_customer_card_v(v: Option<CreditCard>) -> Seq<ElemV> {
    match v {
        Some(cc) => seq![credit_card_elem(cc, "credit_card"@)],
        None => Seq::empty(),
    }
}

/// Zero or one custom-field containers, depending on presence.
pub open spec fn opt_fields_v(v: Option<Vec<(String, String)>>) -> Seq<ElemV> {
    match v {
        Some(ps) => seq![fields_elem(ps@)],
        None => Seq::empty(),
    }
}

proof fn lemma_find_opt_customer_card(v: Option<CreditCard>, tag: Seq<char>)
    ensures
        find_in(opt_customer_card_v(v), tag) == (match v {
            Some(cc) => if "credit_card"@ == tag {
                Some(credit_card_elem(cc, "credit_card"@))
            } else {
                None
            },
            None => None,
        }),
{
    assert(find_in(Seq::<ElemV>::empty(), tag) is None);
    match v {
        Some(cc) => {
            assert(opt_customer_card_v(v)[0] == credit_card_elem(cc, "credit_card"@));
            assert(opt_customer_card_v(v).skip(1) =~= Seq::<ElemV>::empty());
        },
        None => {
            assert(opt_customer_card_v(v) =~= Seq::<ElemV>::empty());
        },
    }
}

proof fn lemma_find_opt_fields(v: Option<Vec<(String, String)>>, tag: Seq<char>)
    ensures
        find_in(opt_fields_v(v), tag) == (match v {
            Some(ps) => if "custom_fields"@ == tag {
                Some(fields_elem(ps@))
            } else {
                None
            },
            None => None,
        }),
{
    assert(find_in(Seq::<ElemV>::empty(), tag) is None);
    match v {
        Some(ps) => {
            assert(opt_fields_v(v)[0] == fields_elem(ps@));
            assert(opt_fields_v(v).skip(1) =~= Seq::<ElemV>::empty());
        },
        None => {
            assert(opt_fields_v(v) =~= Seq::<ElemV>::empty());
        },
    }
}

/// The first six children of an encoded customer, in declaration order.
#[verifier::opaque]
pub open spec fn customer_front(c: Customer) -> Seq<ElemV> {
    opt_leaf_v("company"@, c.company) + opt_leaf_v("email"@, c.email) + opt_leaf_v("fax"@, c.fax) + opt_leaf_v("first-name"@, c.first_name) + opt_leaf_v("id"@, c.id) + opt_leaf_v("last-name"@, c.last_name)
}

/// The remaining children of an encoded customer, in declaration order.
#[verifier::opaque]
pub open spec fn customer_back(c: Customer) -> Seq<ElemV> {
    opt_leaf_v("payment_method_nonce"@, c.payment_method_nonce) + opt_leaf_v("phone"@, c.phone) + opt_leaf_v("website"@, c.website) + opt_customer_card_v(c.credit_card) + opt_fields_v(c.custom_fields)
}

/// The children of an encoded customer.
pub open spec fn customer_children(c: Customer) -> Seq<ElemV> {
    customer_front(c) + customer_back(c)
}

/// The element a customer is encoded as, under the given name.
pub open spec fn customer_elem(c: Customer, name: Seq<char>) -> ElemV {
    ElemV { tag: name, type_attr: None, text: Seq::empty(), children: customer_children(c) }
}

/// Whether a record holds, field for field, exactly what the element
/// offers: each declared tag's child text where present, absence where
/// the element has no such child, the nested card likewise, and the
/// custom-field pairs exactly the container's children.
pub open spec fn customer_matches(c: Customer, e: ElemV) -> bool {
    &&& opt_view(c.company) == child_text(e, "company"@)
    &&& opt_view(c.email) == child_text(e, "email"@)
    &&& opt_view(c.fax) == child_text(e, "fax"@)
    &&& opt_view(c.first_name) == child_text(e, "first-name"@)
    &&& opt_view(c.id) == child_text(e, "id"@)
    &&& opt_view(c.last_name) == child_text(e, "last-name"@)
    &&& opt_view(c.payment_method_nonce) == child_text(e, "payment_method_nonce"@)
    &&& opt_view(c.phone) == child_text(e, "phone"@)
    &&& opt_view(c.website) == child_text(e, "website"@)
    &&& match find_child(e, "credit_card"@) {
        Some(w) => c.credit_card matches Some(cc) && credit_card_matches(cc, w),
        None => c.credit_card is None,
    }
    &&& match find_child(e, "custom_fields"@) {
        Some(w) => c.custom_fields matches Some(ps) && pairs_match(ps@, w.children),
        None => c.custom_fields is None,
    }
}

/// The tags named here are pairwise distinct.
proof fn lemma_customer_tags_distinct()
    ensures
        "company"@ != "email"@,
        "company"@ != "fax"@,
        "company"@ != "first-name"@,
        "company"@ != "id"@,
        "company"@ != "last-name"@,
        "company"@ != "payment_method_nonce"@,
        "company"@ != "phone"@,
        "company"@ != "website"@,
        "company"@ != "credit_card"@,
        "company"@ != "custom_fields"@,
        "email"@ != "fax"@,
        "email"@ != "first-name"@,
        "email"@ != "id"@,
        "email"@ != "last-name"@,
        "email"@ != "payment_method_nonce"@,
        "email"@ != "phone"@,
        "email"@ != "website"@,
        "email"@ != "credit_card"@,
        "email"@ != "custom_fields"@,
        "fax"@ != "first-name"@,
        "fax"@ != "id"@,
        "fax"@ != "last-name"@,
        "fax"@ != "payment_method_nonce"@,
        "fax"@ != "phone"@,
        "fax"@ != "website"@,
        "fax"@ != "credit_card"@,
        "fax"@ != "custom_fields"@,
        "first-name"@ != "id"@,
        "first-name"@ != "last-name"@,
        "first-name"@ != "payment_method_nonce"@,
        "first-name"@ != "phone"@,
        "first-name"@ != "website"@,
        "first-name"@ != "credit_card"@,
        "first-name"@ != "custom_fields"@,
        "id"@ != "last-name"@,
        "id"@ != "payment_method_nonce"@,
        "id"@ != "phone"@,
        "id"@ != "website"@,
        "id"@ != "credit_card"@,
        "id"@ != "custom_fields"@,
        "last-name"@ != "payment_method_nonce"@,
        "last-name"@ != "phone"@,
        "last-name"@ != "website"@,
        "last-name"@ != "credit_card"@,
        "last-name"@ != "custom_fields"@,
        "payment_method_nonce"@ != "phone"@,
        "payment_method_nonce"@ != "website"@,
        "payment_method_nonce"@ != "credit_card"@,
        "payment_method_nonce"@ != "custom_fields"@,
        "phone"@ != "website"@,
        "phone"@ != "credit_card"@,
        "phone"@ != "custom_fields"@,
        "website"@ != "credit_card"@,
        "website"@ != "custom_fields"@,
        "credit_card"@ != "custom_fields"@,
{
    reveal_strlit("company");
    reveal_strlit("email");
    reveal_strlit("fax");
    reveal_strlit("first-name");
    reveal_strlit("id");
    reveal_strlit("last-name");
    reveal_strlit("payment_method_nonce");
    reveal_strlit("phone");
    reveal_strlit("website");
    reveal_strlit("credit_card");
    reveal_strlit("custom_fields");
    assert("company"@.len() == 7);
    assert("email"@.len() == 5);
    assert("fax"@.len() == 3);
    assert("first-name"@.len() == 10);
    assert("id"@.len() == 2);
    assert("last-name"@.len() == 9);
    assert("payment_method_nonce"@.len() == 20);
    assert("phone"@.len() == 5);
    assert("website"@.len() == 7);
    assert("credit_card"@.len() == 11);
    assert("custom_fields"@.len() == 13);
    assert("company"@[0] == 'c');
    assert("website"@[0] == 'w');
    assert("email"@[0] == 'e');
    assert("phone"@[0] == 'p');
    assert("company"@ != "email"@);
    assert("company"@ != "fax"@);
    assert("company"@ != "first-name"@);
    assert("company"@ != "id"@);
    assert("company"@ != "last-name"@);
    assert("company"@ != "payment_method_nonce"@);
    assert("company"@ != "phone"@);
    assert("company"@ != "website"@);
    assert("company"@ != "credit_card"@);
    assert("company"@ != "custom_fields"@);
    assert("email"@ != "fax"@);
    assert("email"@ != "first-name"@);
    assert("email"@ != "id"@);
    assert("email"@ != "last-name"@);
    assert("email"@ != "payment_method_nonce"@);
    assert("email"@ != "phone"@);
    assert("email"@ != "website"@);
    assert("email"@ != "credit_card"@);
    assert("email"@ != "custom_fields"@);
    assert("fax"@ != "first-name"@);
    assert("fax"@ != "id"@);
    assert("fax"@ != "last-name"@);
    assert("fax"@ != "payment_method_nonce"@);
    assert("fax"@ != "phone"@);
    assert("fax"@ != "website"@);
    assert("fax"@ != "credit_card"@);
    assert("fax"@ != "custom_fields"@);
    assert("first-name"@ != "id"@);
    assert("first-name"@ != "last-name"@);
    assert("first-name"@ != "payment_method_nonce"@);
    assert("first-name"@ != "phone"@);
    assert("first-name"@ != "website"@);
    assert("first-name"@ != "credit_card"@);
    assert("first-name"@ != "custom_fields"@);
    assert("id"@ != "last-name"@);
    assert("id"@ != "payment_method_nonce"@);
    assert("id"@ != "phone"@);
    assert("id"@ != "website"@);
    assert("id"@ != "credit_card"@);
    assert("id"@ != "custom_fields"@);
    assert("last-name"@ != "payment_method_nonce"@);
    assert("last-name"@ != "phone"@);
    assert("last-name"@ != "website"@);
    assert("last-name"@ != "credit_card"@);
    assert("last-name"@ != "custom_fields"@);
    assert("payment_method_nonce"@ != "phone"@);
    assert("payment_method_nonce"@ != "website"@);
    assert("payment_method_nonce"@ != "credit_card"@);
    assert("payment_method_nonce"@ != "custom_fields"@);
    assert("phone"@ != "website"@);
    assert("phone"@ != "credit_card"@);
    assert("phone"@ != "custom_fields"@);
    assert("website"@ != "credit_card"@);
    assert("website"@ != "custom_fields"@);
    assert("credit_card"@ != "custom_fields"@);
}

proof fn lemma_customer_front_company(c: Customer)
    ensures
        find_in(customer_front(c), "company"@) == (match c.company { Some(s) => Some(leaf_v("company"@, s@)), None => None }),
{
    reveal(customer_front);
    lemma_customer_tags_distinct();
    assert(find_in(opt_leaf_v("company"@, c.company), "company"@) == (match c.company { Some(s) => Some(leaf_v("company"@, s@)), None => None })) by {
        lemma_find_opt_leaf("company"@, c.company, "company"@);
    }
    assert(find_in((opt_leaf_v("company"@, c.company) + opt_leaf_v("email"@, c.email)), "company"@) == (match c.company { Some(s) => Some(leaf_v("company"@, s@)), None => None })) by {
        lemma_find_opt_leaf("email"@, c.email, "company"@);
        lemma_find_append(opt_leaf_v("company"@, c.company), opt_leaf_v("email"@, c.email), "company"@);
    }
    assert(find_in(((opt_leaf_v("company"@, c.company) + opt_leaf_v("email"@, c.email)) + opt_leaf_v("fax"@, c.fax)), "company"@) == (match c.company { Some(s) => Some(leaf_v("company"@, s@)), None => None })) by {
        lemma_find_opt_leaf("fax"@, c.fax, "company"@);
        lemma_find_append((opt_leaf_v("company"@, c.company) + opt_leaf_v("email"@, c.email)), opt_leaf_v("fax"@, c.fax), "company"@);
    }
    assert(find_in((((opt_leaf_v("company"@, c.company) + opt_leaf_v("email"@, c.email)) + opt_leaf_v("fax"@, c.fax)) + opt_leaf_v("first-name"@, c.first_name)), "company"@) == (match c.company { Some(s) => Some(leaf_v("company"@, s@)), None => None })) by {
        lemma_find_opt_leaf("first-name"@, c.first_name, "company"@);
        lemma_find_append(((opt_leaf_v("company"@, c.company) + opt_leaf_v("email"@, c.email)) + opt_leaf_v("fax"@, c.fax)), opt_leaf_v("first-name"@, c.first_name), "company"@);
    }
    assert(find_in(((((opt_leaf_v("company"@, c.company) + opt_leaf_v("email"@, c.email)) + opt_leaf_v("fax"@, c.fax)) + opt_leaf_v("first-name"@, c.first_name)) + opt_leaf_v("id"@, c.id)), "company"@) == (match c.company { Some(s) => Some(leaf_v("company"@, s@)), None => None })) by {
        lemma_find_opt_leaf("id"@, c.id, "company"@);
        lemma_find_append((((opt_leaf_v("company"@, c.company) + opt_leaf_v("email"@, c.email)) + opt_leaf_v("fax"@, c.fax)) + opt_leaf_v("first-name"@, c.first_name)), opt_leaf_v("id"@, c.id), "company"@);
    }
    assert(find_in((((((opt_leaf_v("company"@, c.company) + opt_leaf_v("email"@, c.email)) + opt_leaf_v("fax"@, c.fax)) + opt_leaf_v("first-name"@, c.first_name)) + opt_leaf_v("id"@, c.id)) + opt_leaf_v("last-name"@, c.last_name)), "company"@) == (match c.company { Some(s) => Some(leaf_v("company"@, s@)), None => None })) by {
        lemma_find_opt_leaf("last-name"@, c.last_name, "company"@);
        lemma_find_append(((((opt_leaf_v("company"@, c.company) + opt_leaf_v("email"@, c.email)) + opt_leaf_v("fax"@, c.fax)) + opt_leaf_v("first-name"@, c.first_name)) + opt_leaf_v("id"@, c.id)), opt_leaf_v("last-name"@, c.last_name), "company"@);
    }
}

proof fn lemma_customer_front_email(c: Customer)
    ensures
        find_in(customer_front(c), "email"@) == (match c.email { Some(s) => Some(leaf_v("email"@, s@)), None => None }),
{
    reveal(customer_front);
    lemma_customer_tags_distinct();
    assert(find_in(opt_leaf_v("company"@, c.company), "email"@) == None::<ElemV>) by {
        lemma_find_opt_leaf("company"@, c.company, "email"@);
    }
    assert(find_in((opt_leaf_v("company"@, c.company) + opt_leaf_v("email"@, c.email)), "email"@) == (match c.email { Some(s) => Some(leaf_v("email"@, s@)), None => None })) by {
        lemma_find_opt_leaf("email"@, c.email, "email"@);
        lemma_find_append(opt_leaf_v("company"@, c.company), opt_leaf_v("email"@, c.email), "email"@);
    }
    assert(find_in(((opt_leaf_v("company"@, c.company) + opt_leaf_v("email"@, c.email)) + opt_leaf_v("fax"@, c.fax)), "email"@) == (match c.email { Some(s) => Some(leaf_v("email"@, s@)), None => None })) by {
        lemma_find_opt_leaf("fax"@, c.fax, "email"@);
        lemma_find_append((opt_leaf_v("company"@, c.company) + opt_leaf_v("email"@, c.email)), opt_leaf_v("fax"@, c.fax), "email"@);
    }
    assert(find_in((((opt_leaf_v("company"@, c.company) + opt_leaf_v("email"@, c.email)) + opt_leaf_v("fax"@, c.fax)) + opt_leaf_v("first-name"@, c.first_name)), "email"@) == (match c.email { Some(s) => Some(leaf_v("email"@, s@)), None => None })) by {
        lemma_find_opt_leaf("first-name"@, c.first_name, "email"@);
        lemma_find_append(((opt_leaf_v("company"@, c.company) + opt_leaf_v("email"@, c.email)) + opt_leaf_v("fax"@, c.fax)), opt_leaf_v("first-name"@, c.first_name), "email"@);
    }
    assert(find_in(((((opt_leaf_v("company"@, c.company) + opt_leaf_v("email"@, c.email)) + opt_leaf_v("fax"@, c.fax)) + opt_leaf_v("first-name"@, c.first_name)) + opt_leaf_v("id"@, c.id)), "email"@) == (match c.email { Some(s) => Some(leaf_v("email"@, s@)), None => None })) by {
        lemma_find_opt_leaf("id"@, c.id, "email"@);
        lemma_find_append((((opt_leaf_v("company"@, c.company) + opt_leaf_v("email"@, c.email)) + opt_leaf_v("fax"@, c.fax)) + opt_leaf_v("first-name"@, c.first_name)), opt_leaf_v("id"@, c.id), "email"@);
    }
    assert(find_in((((((opt_leaf_v("company"@, c.company) + opt_leaf_v("email"@, c.email)) + opt_leaf_v("fax"@, c.fax)) + opt_leaf_v("first-name"@, c.first_name)) + opt_leaf_v("id"@, c.id)) + opt_leaf_v("last-name"@, c.last_name)), "email"@) == (match c.email { Some(s) => Some(leaf_v("email"@, s@)), None => None })) by {
        lemma_find_opt_leaf("last-name"@, c.last_name, "email"@);
        lemma_find_append(((((opt_leaf_v("company"@, c.company) + opt_leaf_v("email"@, c.email)) + opt_leaf_v("fax"@, c.fax)) + opt_leaf_v("first-name"@, c.first_name)) + opt_leaf_v("id"@, c.id)), opt_leaf_v("last-name"@, c.last_name), "email"@);
    }
}

proof fn lemma_customer_front_fax(c: Customer)
    ensures
        find_in(customer_front(c), "fax"@) == (match c.fax { Some(s) => Some(leaf_v("fax"@, s@)), None => None }),
{
    reveal(customer_front);
    lemma_customer_tags_distinct();
    assert(find_in(opt_leaf_v("company"@, c.company), "fax"@) == None::<ElemV>) by {
        lemma_find_opt_leaf("company"@, c.company, "fax"@);
    }
    assert(find_in((opt_leaf_v("company"@, c.company) + opt_leaf_v("email"@, c.email)), "fax"@) == None::<ElemV>) by {
        lemma_find_opt_leaf("email"@, c.email, "fax"@);
        lemma_find_append(opt_leaf_v("company"@, c.company), opt_leaf_v("email"@, c.email), "fax"@);
    }
    assert(find_in(((opt_leaf_v("company"@, c.company) + opt_leaf_v("email"@, c.email)) + opt_leaf_v("fax"@, c.fax)), "fax"@) == (match c.fax { Some(s) => Some(leaf_v("fax"@, s@)), None => None })) by {
        lemma_find_opt_leaf("fax"@, c.fax, "fax"@);
        lemma_find_append((opt_leaf_v("company"@, c.company) + opt_leaf_v("email"@, c.email)), opt_leaf_v("fax"@, c.fax), "fax"@);
    }
    assert(find_in((((opt_leaf_v("company"@, c.company) + opt_leaf_v("email"@, c.email)) + opt_leaf_v("fax"@, c.fax)) + opt_leaf_v("first-name"@, c.first_name)), "fax"@) == (match c.fax { Some(s) => Some(leaf_v("fax"@, s@)), None => None })) by {
        lemma_find_opt_leaf("first-name"@, c.first_name, "fax"@);
        lemma_find_append(((opt_leaf_v("company"@, c.company) + opt_leaf_v("email"@, c.email)) + opt_leaf_v("fax"@, c.fax)), opt_leaf_v("first-name"@, c.first_name), "fax"@);
    }
    assert(find_in(((((opt_leaf_v("company"@, c.company) + opt_leaf_v("email"@, c.email)) + opt_leaf_v("fax"@, c.fax)) + opt_leaf_v("first-name"@, c.first_name)) + opt_leaf_v("id"@, c.id)), "fax"@) == (match c.fax { Some(s) => Some(leaf_v("fax"@, s@)), None => None })) by {
        lemma_find_opt_leaf("id"@, c.id, "fax"@);
        lemma_find_append((((opt_leaf_v("company"@, c.company) + opt_leaf_v("email"@, c.email)) + opt_leaf_v("fax"@, c.fax)) + opt_leaf_v("first-name"@, c.first_name)), opt_leaf_v("id"@, c.id), "fax"@);
    }
    assert(find_in((((((opt_leaf_v("company"@, c.company) + opt_leaf_v("email"@, c.email)) + opt_leaf_v("fax"@, c.fax)) + opt_leaf_v("first-name"@, c.first_name)) + opt_leaf_v("id"@, c.id)) + opt_leaf_v("last-name"@, c.last_name)), "fax"@) == (match c.fax { Some(s) => Some(leaf_v("fax"@, s@)), None => None })) by {
        lemma_find_opt_leaf("last-name"@, c.last_name, "fax"@);
        lemma_find_append(((((opt_leaf_v("company"@, c.company) + opt_leaf_v("email"@, c.email)) + opt_leaf_v("fax"@, c.fax)) + opt_leaf_v("first-name"@, c.first_name)) + opt_leaf_v("id"@, c.id)), opt_leaf_v("last-name"@, c.last_name), "fax"@);
    }
}

proof fn lemma_customer_front_first_name(c: Customer)
    ensures
        find_in(customer_front(c), "first-name"@) == (match c.first_name { Some(s) => Some(leaf_v("first-name"@, s@)), None => None }),
{
    reveal(customer_front);
    lemma_customer_tags_distinct();
    assert(find_in(opt_leaf_v("company"@, c.company), "first-name"@) == None::<ElemV>) by {
        lemma_find_opt_leaf("company"@, c.company, "first-name"@);
    }
    assert(find_in((opt_leaf_v("company"@, c.company) + opt_leaf_v("email"@, c.email)), "first-name"@) == None::<ElemV>) by {
        lemma_find_opt_leaf("email"@, c.email, "first-name"@);
        lemma_find_append(opt_leaf_v("company"@, c.company), opt_leaf_v("email"@, c.email), "first-name"@);
    }
    assert(find_in(((opt_leaf_v("company"@, c.company) + opt_leaf_v("email"@, c.email)) + opt_leaf_v("fax"@, c.fax)), "first-name"@) == None::<ElemV>) by {
        lemma_find_opt_leaf("fax"@, c.fax, "first-name"@);
        lemma_find_append((opt_leaf_v("company"@, c.company) + opt_leaf_v("email"@, c.email)), opt_leaf_v("fax"@, c.fax), "first-name"@);
    }
    assert(find_in((((opt_leaf_v("company"@, c.company) + opt_leaf_v("email"@, c.email)) + opt_leaf_v("fax"@, c.fax)) + opt_leaf_v("first-name"@, c.first_name)), "first-name"@) == (match c.first_name { Some(s) => Some(leaf_v("first-name"@, s@)), None => None })) by {
        lemma_find_opt_leaf("first-name"@, c.first_name, "first-name"@);
        lemma_find_append(((opt_leaf_v("company"@, c.company) + opt_leaf_v("email"@, c.email)) + opt_leaf_v("fax"@, c.fax)), opt_leaf_v("first-name"@, c.first_name), "first-name"@);
    }
    assert(find_in(((((opt_leaf_v("company"@, c.company) + opt_leaf_v("email"@, c.email)) + opt_leaf_v("fax"@, c.fax)) + opt_leaf_v("first-name"@, c.first_name)) + opt_leaf_v("id"@, c.id)), "first-name"@) == (match c.first_name { Some(s) => Some(leaf_v("first-name"@, s@)), None => None })) by {
        lemma_find_opt_leaf("id"@, c.id, "first-name"@);
        lemma_find_append((((opt_leaf_v("company"@, c.company) + opt_leaf_v("email"@, c.email)) + opt_leaf_v("fax"@, c.fax)) + opt_leaf_v("first-name"@, c.first_name)), opt_leaf_v("id"@, c.id), "first-name"@);
    }
    assert(find_in((((((opt_leaf_v("company"@, c.company) + opt_leaf_v("email"@, c.email)) + opt_leaf_v("fax"@, c.fax)) + opt_leaf_v("first-name"@, c.first_name)) + opt_leaf_v("id"@, c.id)) + opt_leaf_v("last-name"@, c.last_name)), "first-name"@) == (match c.first_name { Some(s) => Some(leaf_v("first-name"@, s@)), None => None })) by {
        lemma_find_opt_leaf("last-name"@, c.last_name, "first-name"@);
        lemma_find_append(((((opt_leaf_v("company"@, c.company) + opt_leaf_v("email"@, c.email)) + opt_leaf_v("fax"@, c.fax)) + opt_leaf_v("first-name"@, c.first_name)) + opt_leaf_v("id"@, c.id)), opt_leaf_v("last-name"@, c.last_name), "first-name"@);
    }
}

proof fn lemma_customer_front_id(c: Customer)
    ensures
        find_in(customer_front(c), "id"@) == (match c.id { Some(s) => Some(leaf_v("id"@, s@)), None => None }),
{
    reveal(customer_front);
    lemma_customer_tags_distinct();
    assert(find_in(opt_leaf_v("company"@, c.company), "id"@) == None::<ElemV>) by {
        lemma_find_opt_leaf("company"@, c.company, "id"@);
    }
    assert(find_in((opt_leaf_v("company"@, c.company) + opt_leaf_v("email"@, c.email)), "id"@) == None::<ElemV>) by {
        lemma_find_opt_leaf("email"@, c.email, "id"@);
        lemma_find_append(opt_leaf_v("company"@, c.company), opt_leaf_v("email"@, c.email), "id"@);
    }
    assert(find_in(((opt_leaf_v("company"@, c.company) + opt_leaf_v("email"@, c.email)) + opt_leaf_v("fax"@, c.fax)), "id"@) == None::<ElemV>) by {
        lemma_find_opt_leaf("fax"@, c.fax, "id"@);
        lemma_find_append((opt_leaf_v("company"@, c.company) + opt_leaf_v("email"@, c.email)), opt_leaf_v("fax"@, c.fax), "id"@);
    }
    assert(find_in((((opt_leaf_v("company"@, c.company) + opt_leaf_v("email"@, c.email)) + opt_leaf_v("fax"@, c.fax)) + opt_leaf_v("first-name"@, c.first_name)), "id"@) == None::<ElemV>) by {
        lemma_find_opt_leaf("first-name"@, c.first_name, "id"@);
        lemma_find_append(((opt_leaf_v("company"@, c.company) + opt_leaf_v("email"@, c.email)) + opt_leaf_v("fax"@, c.fax)), opt_leaf_v("first-name"@, c.first_name), "id"@);
    }
    assert(find_in(((((opt_leaf_v("company"@, c.company) + opt_leaf_v("email"@, c.email)) + opt_leaf_v("fax"@, c.fax)) + opt_leaf_v("first-name"@, c.first_name)) + opt_leaf_v("id"@, c.id)), "id"@) == (match c.id { Some(s) => Some(leaf_v("id"@, s@)), None => None })) by {
        lemma_find_opt_leaf("id"@, c.id, "id"@);
        lemma_find_append((((opt_leaf_v("company"@, c.company) + opt_leaf_v("email"@, c.email)) + opt_leaf_v("fax"@, c.fax)) + opt_leaf_v("first-name"@, c.first_name)), opt_leaf_v("id"@, c.id), "id"@);
    }
    assert(find_in((((((opt_leaf_v("company"@, c.company) + opt_leaf_v("email"@, c.email)) + opt_leaf_v("fax"@, c.fax)) + opt_leaf_v("first-name"@, c.first_name)) + opt_leaf_v("id"@, c.id)) + opt_leaf_v("last-name"@, c.last_name)), "id"@) == (match c.id { Some(s) => Some(leaf_v("id"@, s@)), None => None })) by {
        lemma_find_opt_leaf("last-name"@, c.last_name, "id"@);
        lemma_find_append(((((opt_leaf_v("company"@, c.company) + opt_leaf_v("email"@, c.email)) + opt_leaf_v("fax"@, c.fax)) + opt_leaf_v("first-name"@, c.first_name)) + opt_leaf_v("id"@, c.id)), opt_leaf_v("last-name"@, c.last_name), "id"@);
    }
}

proof fn lemma_customer_front_last_name(c: Customer)
    ensures
        find_in(customer_front(c), "last-name"@) == (match c.last_name { Some(s) => Some(leaf_v("last-name"@, s@)), None => None }),
{
    reveal(customer_front);
    lemma_customer_tags_distinct();
    assert(find_in(opt_leaf_v("company"@, c.company), "last-name"@) == None::<ElemV>) by {
        lemma_find_opt_leaf("company"@, c.company, "last-name"@);
    }
    assert(find_in((opt_leaf_v("company"@, c.company) + opt_leaf_v("email"@, c.email)), "last-name"@) == None::<ElemV>) by {
        lemma_find_opt_leaf("email"@, c.email, "last-name"@);
        lemma_find_append(opt_leaf_v("company"@, c.company), opt_leaf_v("email"@, c.email), "last-name"@);
    }
    assert(find_in(((opt_leaf_v("company"@, c.company) + opt_leaf_v("email"@, c.email)) + opt_leaf_v("fax"@, c.fax)), "last-name"@) == None::<ElemV>) by {
        lemma_find_opt_leaf("fax"@, c.fax, "last-name"@);
        lemma_find_append((opt_leaf_v("company"@, c.company) + opt_leaf_v("email"@, c.email)), opt_leaf_v("fax"@, c.fax), "last-name"@);
    }
    assert(find_in((((opt_leaf_v("company"@, c.company) + opt_leaf_v("email"@, c.email)) + opt_leaf_v("fax"@, c.fax)) + opt_leaf_v("first-name"@, c.first_name)), "last-name"@) == None::<ElemV>) by {
        lemma_find_opt_leaf("first-name"@, c.first_name, "last-name"@);
        lemma_find_append(((opt_leaf_v("company"@, c.company) + opt_leaf_v("email"@, c.email)) + opt_leaf_v("fax"@, c.fax)), opt_leaf_v("first-name"@, c.first_name), "last-name"@);
    }
    assert(find_in(((((opt_leaf_v("company"@, c.company) + opt_leaf_v("email"@, c.email)) + opt_leaf_v("fax"@, c.fax)) + opt_leaf_v("first-name"@, c.first_name)) + opt_leaf_v("id"@, c.id)), "last-name"@) == None::<ElemV>) by {
        lemma_find_opt_leaf("id"@, c.id, "last-name"@);
        lemma_find_append((((opt_leaf_v("company"@, c.company) + opt_leaf_v("email"@, c.email)) + opt_leaf_v("fax"@, c.fax)) + opt_leaf_v("first-name"@, c.first_name)), opt_leaf_v("id"@, c.id), "last-name"@);
    }
    assert(find_in((((((opt_leaf_v("company"@, c.company) + opt_leaf_v("email"@, c.email)) + opt_leaf_v("fax"@, c.fax)) + opt_leaf_v("first-name"@, c.first_name)) + opt_leaf_v("id"@, c.id)) + opt_leaf_v("last-name"@, c.last_name)), "last-name"@) == (match c.last_name { Some(s) => Some(leaf_v("last-name"@, s@)), None => None })) by {
        lemma_find_opt_leaf("last-name"@, c.last_name, "last-name"@);
        lemma_find_append(((((opt_leaf_v("company"@, c.company) + opt_leaf_v("email"@, c.email)) + opt_leaf_v("fax"@, c.fax)) + opt_leaf_v("first-name"@, c.first_name)) + opt_leaf_v("id"@, c.id)), opt_leaf_v("last-name"@, c.last_name), "last-name"@);
    }
}

proof fn lemma_customer_front_payment_method_nonce(c: Customer)
    ensures
        find_in(customer_front(c), "payment_method_nonce"@) == None::<ElemV>,
{
    reveal(customer_front);
    lemma_customer_tags_distinct();
    assert(find_in(opt_leaf_v("company"@, c.company), "payment_method_nonce"@) == None::<ElemV>) by {
        lemma_find_opt_leaf("company"@, c.company, "payment_method_nonce"@);
    }
    assert(find_in((opt_leaf_v("company"@, c.company) + opt_leaf_v("email"@, c.email)), "payment_method_nonce"@) == None::<ElemV>) by {
        lemma_find_opt_leaf("email"@, c.email, "payment_method_nonce"@);
        lemma_find_append(opt_leaf_v("company"@, c.company), opt_leaf_v("email"@, c.email), "payment_method_nonce"@);
    }
    assert(find_in(((opt_leaf_v("company"@, c.company) + opt_leaf_v("email"@, c.email)) + opt_leaf_v("fax"@, c.fax)), "payment_method_nonce"@) == None::<ElemV>) by {
        lemma_find_opt_leaf("fax"@, c.fax, "payment_method_nonce"@);
        lemma_find_append((opt_leaf_v("company"@, c.company) + opt_leaf_v("email"@, c.email)), opt_leaf_v("fax"@, c.fax), "payment_method_nonce"@);
    }
    assert(find_in((((opt_leaf_v("company"@, c.company) + opt_leaf_v("email"@, c.email)) + opt_leaf_v("fax"@, c.fax)) + opt_leaf_v("first-name"@, c.first_name)), "payment_method_nonce"@) == None::<ElemV>) by {
        lemma_find_opt_leaf("first-name"@, c.first_name, "payment_method_nonce"@);
        lemma_find_append(((opt_leaf_v("company"@, c.company) + opt_leaf_v("email"@, c.email)) + opt_leaf_v("fax"@, c.fax)), opt_leaf_v("first-name"@, c.first_name), "payment_method_nonce"@);
    }
    assert(find_in(((((opt_leaf_v("company"@, c.company) + opt_leaf_v("email"@, c.email)) + opt_leaf_v("fax"@, c.fax)) + opt_leaf_v("first-name"@, c.first_name)) + opt_leaf_v("id"@, c.id)), "payment_method_nonce"@) == None::<ElemV>) by {
        lemma_find_opt_leaf("id"@, c.id, "payment_method_nonce"@);
        lemma_find_append((((opt_leaf_v("company"@, c.company) + opt_leaf_v("email"@, c.email)) + opt_leaf_v("fax"@, c.fax)) + opt_leaf_v("first-name"@, c.first_name)), opt_leaf_v("id"@, c.id), "payment_method_nonce"@);
    }
    assert(find_in((((((opt_leaf_v("company"@, c.company) + opt_leaf_v("email"@, c.email)) + opt_leaf_v("fax"@, c.fax)) + opt_leaf_v("first-name"@, c.first_name)) + opt_leaf_v("id"@, c.id)) + opt_leaf_v("last-name"@, c.last_name)), "payment_method_nonce"@) == None::<ElemV>) by {
        lemma_find_opt_leaf("last-name"@, c.last_name, "payment_method_nonce"@);
        lemma_find_append(((((opt_leaf_v("company"@, c.company) + opt_leaf_v("email"@, c.email)) + opt_leaf_v("fax"@, c.fax)) + opt_leaf_v("first-name"@, c.first_name)) + opt_leaf_v("id"@, c.id)), opt_leaf_v("last-name"@, c.last_name), "payment_method_nonce"@);
    }
}

proof fn lemma_customer_front_phone(c: Customer)
    ensures
        find_in(customer_front(c), "phone"@) == None::<ElemV>,
{
    reveal(customer_front);
    lemma_customer_tags_distinct();
    assert(find_in(opt_leaf_v("company"@, c.company), "phone"@) == None::<ElemV>) by {
        lemma_find_opt_leaf("company"@, c.company, "phone"@);
    }
    assert(find_in((opt_leaf_v("company"@, c.company) + opt_leaf_v("email"@, c.email)), "phone"@) == None::<ElemV>) by {
        lemma_find_opt_leaf("email"@, c.email, "phone"@);
        lemma_find_append(opt_leaf_v("company"@, c.company), opt_leaf_v("email"@, c.email), "phone"@);
    }
    assert(find_in(((opt_leaf_v("company"@, c.company) + opt_leaf_v("email"@, c.email)) + opt_leaf_v("fax"@, c.fax)), "phone"@) == None::<ElemV>) by {
        lemma_find_opt_leaf("fax"@, c.fax, "phone"@);
        lemma_find_append((opt_leaf_v("company"@, c.company) + opt_leaf_v("email"@, c.email)), opt_leaf_v("fax"@, c.fax), "phone"@);
    }
    assert(find_in((((opt_leaf_v("company"@, c.company) + opt_leaf_v("email"@, c.email)) + opt_leaf_v("fax"@, c.fax)) + opt_leaf_v("first-name"@, c.first_name)), "phone"@) == None::<ElemV>) by {
        lemma_find_opt_leaf("first-name"@, c.first_name, "phone"@);
        lemma_find_append(((opt_leaf_v("company"@, c.company) + opt_leaf_v("email"@, c.email)) + opt_leaf_v("fax"@, c.fax)), opt_leaf_v("first-name"@, c.first_name), "phone"@);
    }
    assert(find_in(((((opt_leaf_v("company"@, c.company) + opt_leaf_v("email"@, c.email)) + opt_leaf_v("fax"@, c.fax)) + opt_leaf_v("first-name"@, c.first_name)) + opt_leaf_v("id"@, c.id)), "phone"@) == None::<ElemV>) by {
        lemma_find_opt_leaf("id"@, c.id, "phone"@);
        lemma_find_append((((opt_leaf_v("company"@, c.company) + opt_leaf_v("email"@, c.email)) + opt_leaf_v("fax"@, c.fax)) + opt_leaf_v("first-name"@, c.first_name)), opt_leaf_v("id"@, c.id), "phone"@);
    }
    assert(find_in((((((opt_leaf_v("company"@, c.company) + opt_leaf_v("email"@, c.email)) + opt_leaf_v("fax"@, c.fax)) + opt_leaf_v("first-name"@, c.first_name)) + opt_leaf_v("id"@, c.id)) + opt_leaf_v("last-name"@, c.last_name)), "phone"@) == None::<ElemV>) by {
        lemma_find_opt_leaf("last-name"@, c.last_name, "phone"@);
        lemma_find_append(((((opt_leaf_v("company"@, c.company) + opt_leaf_v("email"@, c.email)) + opt_leaf_v("fax"@, c.fax)) + opt_leaf_v("first-name"@, c.first_name)) + opt_leaf_v("id"@, c.id)), opt_leaf_v("last-name"@, c.last_name), "phone"@);
    }
}

proof fn lemma_customer_front_website(c: Customer)
    ensures
        find_in(customer_front(c), "website"@) == None::<ElemV>,
{
    reveal(customer_front);
    lemma_customer_tags_distinct();
    assert(find_in(opt_leaf_v("company"@, c.company), "website"@) == None::<ElemV>) by {
        lemma_find_opt_leaf("company"@, c.company, "website"@);
    }
    assert(find_in((opt_leaf_v("company"@, c.company) + opt_leaf_v("email"@, c.email)), "website"@) == None::<ElemV>) by {
        lemma_find_opt_leaf("email"@, c.email, "website"@);
        lemma_find_append(opt_leaf_v("company"@, c.company), opt_leaf_v("email"@, c.email), "website"@);
    }
    assert(find_in(((opt_leaf_v("company"@, c.company) + opt_leaf_v("email"@, c.email)) + opt_leaf_v("fax"@, c.fax)), "website"@) == None::<ElemV>) by {
        lemma_find_opt_leaf("fax"@, c.fax, "website"@);
        lemma_find_append((opt_leaf_v("company"@, c.company) + opt_leaf_v("email"@, c.email)), opt_leaf_v("fax"@, c.fax), "website"@);
    }
    assert(find_in((((opt_leaf_v("company"@, c.company) + opt_leaf_v("email"@, c.email)) + opt_leaf_v("fax"@, c.fax)) + opt_leaf_v("first-name"@, c.first_name)), "website"@) == None::<ElemV>) by {
        lemma_find_opt_leaf("first-name"@, c.first_name, "website"@);
        lemma_find_append(((opt_leaf_v("company"@, c.company) + opt_leaf_v("email"@, c.email)) + opt_leaf_v("fax"@, c.fax)), opt_leaf_v("first-name"@, c.first_name), "website"@);
    }
    assert(find_in(((((opt_leaf_v("company"@, c.company) + opt_leaf_v("email"@, c.email)) + opt_leaf_v("fax"@, c.fax)) + opt_leaf_v("first-name"@, c.first_name)) + opt_leaf_v("id"@, c.id)), "website"@) == None::<ElemV>) by {
        lemma_find_opt_leaf("id"@, c.id, "website"@);
        lemma_find_append((((opt_leaf_v("company"@, c.company) + opt_leaf_v("email"@, c.email)) + opt_leaf_v("fax"@, c.fax)) + opt_leaf_v("first-name"@, c.first_name)), opt_leaf_v("id"@, c.id), "website"@);
    }
    assert(find_in((((((opt_leaf_v("company"@, c.company) + opt_leaf_v("email"@, c.email)) + opt_leaf_v("fax"@, c.fax)) + opt_leaf_v("first-name"@, c.first_name)) + opt_leaf_v("id"@, c.id)) + opt_leaf_v("last-name"@, c.last_name)), "website"@) == None::<ElemV>) by {
        lemma_find_opt_leaf("last-name"@, c.last_name, "website"@);
        lemma_find_append(((((opt_leaf_v("company"@, c.company) + opt_leaf_v("email"@, c.email)) + opt_leaf_v("fax"@, c.fax)) + opt_leaf_v("first-name"@, c.first_name)) + opt_leaf_v("id"@, c.id)), opt_leaf_v("last-name"@, c.last_name), "website"@);
    }
}

proof fn lemma_customer_front_credit_card(c: Customer)
    ensures
        find_in(customer_front(c), "credit_card"@) == None::<ElemV>,
{
    reveal(customer_front);
    lemma_customer_tags_distinct();
    assert(find_in(opt_leaf_v("company"@, c.company), "credit_card"@) == None::<ElemV>) by {
        lemma_find_opt_leaf("company"@, c.company, "credit_card"@);
    }
    assert(find_in((opt_leaf_v("company"@, c.company) + opt_leaf_v("email"@, c.email)), "credit_card"@) == None::<ElemV>) by {
        lemma_find_opt_leaf("email"@, c.email, "credit_card"@);
        lemma_find_append(opt_leaf_v("company"@, c.company), opt_leaf_v("email"@, c.email), "credit_card"@);
    }
    assert(find_in(((opt_leaf_v("company"@, c.company) + opt_leaf_v("email"@, c.email)) + opt_leaf_v("fax"@, c.fax)), "credit_card"@) == None::<ElemV>) by {
        lemma_find_opt_leaf("fax"@, c.fax, "credit_card"@);
        lemma_find_append((opt_leaf_v("company"@, c.company) + opt_leaf_v("email"@, c.email)), opt_leaf_v("fax"@, c.fax), "credit_card"@);
    }
    assert(find_in((((opt_leaf_v("company"@, c.company) + opt_leaf_v("email"@, c.email)) + opt_leaf_v("fax"@, c.fax)) + opt_leaf_v("first-name"@, c.first_name)), "credit_card"@) == None::<ElemV>) by {
        lemma_find_opt_leaf("first-name"@, c.first_name, "credit_card"@);
        lemma_find_append(((opt_leaf_v("company"@, c.company) + opt_leaf_v("email"@, c.email)) + opt_leaf_v("fax"@, c.fax)), opt_leaf_v("first-name"@, c.first_name), "credit_card"@);
    }
    assert(find_in(((((opt_leaf_v("company"@, c.company) + opt_leaf_v("email"@, c.email)) + opt_leaf_v("fax"@, c.fax)) + opt_leaf_v("first-name"@, c.first_name)) + opt_leaf_v("id"@, c.id)), "credit_card"@) == None::<ElemV>) by {
        lemma_find_opt_leaf("id"@, c.id, "credit_card"@);
        lemma_find_append((((opt_leaf_v("company"@, c.company) + opt_leaf_v("email"@, c.email)) + opt_leaf_v("fax"@, c.fax)) + opt_leaf_v("first-name"@, c.first_name)), opt_leaf_v("id"@, c.id), "credit_card"@);
    }
    assert(find_in((((((opt_leaf_v("company"@, c.company) + opt_leaf_v("email"@, c.email)) + opt_leaf_v("fax"@, c.fax)) + opt_leaf_v("first-name"@, c.first_name)) + opt_leaf_v("id"@, c.id)) + opt_leaf_v("last-name"@, c.last_name)), "credit_card"@) == None::<ElemV>) by {
        lemma_find_opt_leaf("last-name"@, c.last_name, "credit_card"@);
        lemma_find_append(((((opt_leaf_v("company"@, c.company) + opt_leaf_v("email"@, c.email)) + opt_leaf_v("fax"@, c.fax)) + opt_leaf_v("first-name"@, c.first_name)) + opt_leaf_v("id"@, c.id)), opt_leaf_v("last-name"@, c.last_name), "credit_card"@);
    }
}

proof fn lemma_customer_front_custom_fields(c: Customer)
    ensures
        find_in(customer_front(c), "custom_fields"@) == None::<ElemV>,
{
    reveal(customer_front);
    lemma_customer_tags_distinct();
    assert(find_in(opt_leaf_v("company"@, c.company), "custom_fields"@) == None::<ElemV>) by {
        lemma_find_opt_leaf("company"@, c.company, "custom_fields"@);
    }
    assert(find_in((opt_leaf_v("company"@, c.company) + opt_leaf_v("email"@, c.email)), "custom_fields"@) == None::<ElemV>) by {
        lemma_find_opt_leaf("email"@, c.email, "custom_fields"@);
        lemma_find_append(opt_leaf_v("company"@, c.company), opt_leaf_v("email"@, c.email), "custom_fields"@);
    }
    assert(find_in(((opt_leaf_v("company"@, c.company) + opt_leaf_v("email"@, c.email)) + opt_leaf_v("fax"@, c.fax)), "custom_fields"@) == None::<ElemV>) by {
        lemma_find_opt_leaf("fax"@, c.fax, "custom_fields"@);
        lemma_find_append((opt_leaf_v("company"@, c.company) + opt_leaf_v("email"@, c.email)), opt_leaf_v("fax"@, c.fax), "custom_fields"@);
    }
    assert(find_in((((opt_leaf_v("company"@, c.company) + opt_leaf_v("email"@, c.email)) + opt_leaf_v("fax"@, c.fax)) + opt_leaf_v("first-name"@, c.first_name)), "custom_fields"@) == None::<ElemV>) by {
        lemma_find_opt_leaf("first-name"@, c.first_name, "custom_fields"@);
        lemma_find_append(((opt_leaf_v("company"@, c.company) + opt_leaf_v("email"@, c.email)) + opt_leaf_v("fax"@, c.fax)), opt_leaf_v("first-name"@, c.first_name), "custom_fields"@);
    }
    assert(find_in(((((opt_leaf_v("company"@, c.company) + opt_leaf_v("email"@, c.email)) + opt_leaf_v("fax"@, c.fax)) + opt_leaf_v("first-name"@, c.first_name)) + opt_leaf_v("id"@, c.id)), "custom_fields"@) == None::<ElemV>) by {
        lemma_find_opt_leaf("id"@, c.id, "custom_fields"@);
        lemma_find_append((((opt_leaf_v("company"@, c.company) + opt_leaf_v("email"@, c.email)) + opt_leaf_v("fax"@, c.fax)) + opt_leaf_v("first-name"@, c.first_name)), opt_leaf_v("id"@, c.id), "custom_fields"@);
    }
    assert(find_in((((((opt_leaf_v("company"@, c.company) + opt_leaf_v("email"@, c.email)) + opt_leaf_v("fax"@, c.fax)) + opt_leaf_v("first-name"@, c.first_name)) + opt_leaf_v("id"@, c.id)) + opt_leaf_v("last-name"@, c.last_name)), "custom_fields"@) == None::<ElemV>) by {
        lemma_find_opt_leaf("last-name"@, c.last_name, "custom_fields"@);
        lemma_find_append(((((opt_leaf_v("company"@, c.company) + opt_leaf_v("email"@, c.email)) + opt_leaf_v("fax"@, c.fax)) + opt_leaf_v("first-name"@, c.first_name)) + opt_leaf_v("id"@, c.id)), opt_leaf_v("last-name"@, c.last_name), "custom_fields"@);
    }
}

proof fn lemma_customer_back_company(c: Customer)
    ensures
        find_in(customer_back(c), "company"@) == None::<ElemV>,
{
    reveal(customer_back);
    lemma_customer_tags_distinct();
    assert(find_in(opt_leaf_v("payment_method_nonce"@, c.payment_method_nonce), "company"@) == None::<ElemV>) by {
        lemma_find_opt_leaf("payment_method_nonce"@, c.payment_method_nonce, "company"@);
    }
    assert(find_in((opt_leaf_v("payment_method_nonce"@, c.payment_method_nonce) + opt_leaf_v("phone"@, c.phone)), "company"@) == None::<ElemV>) by {
        lemma_find_opt_leaf("phone"@, c.phone, "company"@);
        lemma_find_append(opt_leaf_v("payment_method_nonce"@, c.payment_method_nonce), opt_leaf_v("phone"@, c.phone), "company"@);
    }
    assert(find_in(((opt_leaf_v("payment_method_nonce"@, c.payment_method_nonce) + opt_leaf_v("phone"@, c.phone)) + opt_leaf_v("website"@, c.website)), "company"@) == None::<ElemV>) by {
        lemma_find_opt_leaf("website"@, c.website, "company"@);
        lemma_find_append((opt_leaf_v("payment_method_nonce"@, c.payment_method_nonce) + opt_leaf_v("phone"@, c.phone)), opt_leaf_v("website"@, c.website), "company"@);
    }
    assert(find_in((((opt_leaf_v("payment_method_nonce"@, c.payment_method_nonce) + opt_leaf_v("phone"@, c.phone)) + opt_leaf_v("website"@, c.website)) + opt_customer_card_v(c.credit_card)), "company"@) == None::<ElemV>) by {
        lemma_find_opt_customer_card(c.credit_card, "company"@);
        lemma_find_append(((opt_leaf_v("payment_method_nonce"@, c.payment_method_nonce) + opt_leaf_v("phone"@, c.phone)) + opt_leaf_v("website"@, c.website)), opt_customer_card_v(c.credit_card), "company"@);
    }
    assert(find_in(((((opt_leaf_v("payment_method_nonce"@, c.payment_method_nonce) + opt_leaf_v("phone"@, c.phone)) + opt_leaf_v("website"@, c.website)) + opt_customer_card_v(c.credit_card)) + opt_fields_v(c.custom_fields)), "company"@) == None::<ElemV>) by {
        lemma_find_opt_fields(c.custom_fields, "company"@);
        lemma_find_append((((opt_leaf_v("payment_method_nonce"@, c.payment_method_nonce) + opt_leaf_v("phone"@, c.phone)) + opt_leaf_v("website"@, c.website)) + opt_customer_card_v(c.credit_card)), opt_fields_v(c.custom_fields), "company"@);
    }
}

proof fn lemma_customer_back_email(c: Customer)
    ensures
        find_in(customer_back(c), "email"@) == None::<ElemV>,
{
    reveal(customer_back);
    lemma_customer_tags_distinct();
    assert(find_in(opt_leaf_v("payment_method_nonce"@, c.payment_method_nonce), "email"@) == None::<ElemV>) by {
        lemma_find_opt_leaf("payment_method_nonce"@, c.payment_method_nonce, "email"@);
    }
    assert(find_in((opt_leaf_v("payment_method_nonce"@, c.payment_method_nonce) + opt_leaf_v("phone"@, c.phone)), "email"@) == None::<ElemV>) by {
        lemma_find_opt_leaf("phone"@, c.phone, "email"@);
        lemma_find_append(opt_leaf_v("payment_method_nonce"@, c.payment_method_nonce), opt_leaf_v("phone"@, c.phone), "email"@);
    }
    assert(find_in(((opt_leaf_v("payment_method_nonce"@, c.payment_method_nonce) + opt_leaf_v("phone"@, c.phone)) + opt_leaf_v("website"@, c.website)), "email"@) == None::<ElemV>) by {
        lemma_find_opt_leaf("website"@, c.website, "email"@);
        lemma_find_append((opt_leaf_v("payment_method_nonce"@, c.payment_method_nonce) + opt_leaf_v("phone"@, c.phone)), opt_leaf_v("website"@, c.website), "email"@);
    }
    assert(find_in((((opt_leaf_v("payment_method_nonce"@, c.payment_method_nonce) + opt_leaf_v("phone"@, c.phone)) + opt_leaf_v("website"@, c.website)) + opt_customer_card_v(c.credit_card)), "email"@) == None::<ElemV>) by {
        lemma_find_opt_customer_card(c.credit_card, "email"@);
        lemma_find_append(((opt_leaf_v("payment_method_nonce"@, c.payment_method_nonce) + opt_leaf_v("phone"@, c.phone)) + opt_leaf_v("website"@, c.website)), opt_customer_card_v(c.credit_card), "email"@);
    }
    assert(find_in(((((opt_leaf_v("payment_method_nonce"@, c.payment_method_nonce) + opt_leaf_v("phone"@, c.phone)) + opt_leaf_v("website"@, c.website)) + opt_customer_card_v(c.credit_card)) + opt_fields_v(c.custom_fields)), "email"@) == None::<ElemV>) by {
        lemma_find_opt_fields(c.custom_fields, "email"@);
        lemma_find_append((((opt_leaf_v("payment_method_nonce"@, c.payment_method_nonce) + opt_leaf_v("phone"@, c.phone)) + opt_leaf_v("website"@, c.website)) + opt_customer_card_v(c.credit_card)), opt_fields_v(c.custom_fields), "email"@);
    }
}

proof fn lemma_customer_back_fax(c: Customer)
    ensures
        find_in(customer_back(c), "fax"@) == None::<ElemV>,
{
    reveal(customer_back);
    lemma_customer_tags_distinct();
    assert(find_in(opt_leaf_v("payment_method_nonce"@, c.payment_method_nonce), "fax"@) == None::<ElemV>) by {
        lemma_find_opt_leaf("payment_method_nonce"@, c.payment_method_nonce, "fax"@);
    }
    assert(find_in((opt_leaf_v("payment_method_nonce"@, c.payment_method_nonce) + opt_leaf_v("phone"@, c.phone)), "fax"@) == None::<ElemV>) by {
        lemma_find_opt_leaf("phone"@, c.phone, "fax"@);
        lemma_find_append(opt_leaf_v("payment_method_nonce"@, c.payment_method_nonce), opt_leaf_v("phone"@, c.phone), "fax"@);
    }
    assert(find_in(((opt_leaf_v("payment_method_nonce"@, c.payment_method_nonce) + opt_leaf_v("phone"@, c.phone)) + opt_leaf_v("website"@, c.website)), "fax"@) == None::<ElemV>) by {
        lemma_find_opt_leaf("website"@, c.website, "fax"@);
        lemma_find_append((opt_leaf_v("payment_method_nonce"@, c.payment_method_nonce) + opt_leaf_v("phone"@, c.phone)), opt_leaf_v("website"@, c.website), "fax"@);
    }
    assert(find_in((((opt_leaf_v("payment_method_nonce"@, c.payment_method_nonce) + opt_leaf_v("phone"@, c.phone)) + opt_leaf_v("website"@, c.website)) + opt_customer_card_v(c.credit_card)), "fax"@) == None::<ElemV>) by {
        lemma_find_opt_customer_card(c.credit_card, "fax"@);
        lemma_find_append(((opt_leaf_v("payment_method_nonce"@, c.payment_method_nonce) + opt_leaf_v("phone"@, c.phone)) + opt_leaf_v("website"@, c.website)), opt_customer_card_v(c.credit_card), "fax"@);
    }
    assert(find_in(((((opt_leaf_v("payment_method_nonce"@, c.payment_method_nonce) + opt_leaf_v("phone"@, c.phone)) + opt_leaf_v("website"@, c.website)) + opt_customer_card_v(c.credit_card)) + opt_fields_v(c.custom_fields)), "fax"@) == None::<ElemV>) by {
        lemma_find_opt_fields(c.custom_fields, "fax"@);
        lemma_find_append((((opt_leaf_v("payment_method_nonce"@, c.payment_method_nonce) + opt_leaf_v("phone"@, c.phone)) + opt_leaf_v("website"@, c.website)) + opt_customer_card_v(c.credit_card)), opt_fields_v(c.custom_fields), "fax"@);
    }
}

proof fn lemma_customer_back_first_name(c: Customer)
    ensures
        find_in(customer_back(c), "first-name"@) == None::<ElemV>,
{
    reveal(customer_back);
    lemma_customer_tags_distinct();
    assert(find_in(opt_leaf_v("payment_method_nonce"@, c.payment_method_nonce), "first-name"@) == None::<ElemV>) by {
        lemma_find_opt_leaf("payment_method_nonce"@, c.payment_method_nonce, "first-name"@);
    }
    assert(find_in((opt_leaf_v("payment_method_nonce"@, c.payment_method_nonce) + opt_leaf_v("phone"@, c.phone)), "first-name"@) == None::<ElemV>) by {
        lemma_find_opt_leaf("phone"@, c.phone, "first-name"@);
        lemma_find_append(opt_leaf_v("payment_method_nonce"@, c.payment_method_nonce), opt_leaf_v("phone"@, c.phone), "first-name"@);
    }
    assert(find_in(((opt_leaf_v("payment_method_nonce"@, c.payment_method_nonce) + opt_leaf_v("phone"@, c.phone)) + opt_leaf_v("website"@, c.website)), "first-name"@) == None::<ElemV>) by {
        lemma_find_opt_leaf("website"@, c.website, "first-name"@);
        lemma_find_append((opt_leaf_v("payment_method_nonce"@, c.payment_method_nonce) + opt_leaf_v("phone"@, c.phone)), opt_leaf_v("website"@, c.website), "first-name"@);
    }
    assert(find_in((((opt_leaf_v("payment_method_nonce"@, c.payment_method_nonce) + opt_leaf_v("phone"@, c.phone)) + opt_leaf_v("website"@, c.website)) + opt_customer_card_v(c.credit_card)), "first-name"@) == None::<ElemV>) by {
        lemma_find_opt_customer_card(c.credit_card, "first-name"@);
        lemma_find_append(((opt_leaf_v("payment_method_nonce"@, c.payment_method_nonce) + opt_leaf_v("phone"@, c.phone)) + opt_leaf_v("website"@, c.website)), opt_customer_card_v(c.credit_card), "first-name"@);
    }
    assert(find_in(((((opt_leaf_v("payment_method_nonce"@, c.payment_method_nonce) + opt_leaf_v("phone"@, c.phone)) + opt_leaf_v("website"@, c.website)) + opt_customer_card_v(c.credit_card)) + opt_fields_v(c.custom_fields)), "first-name"@) == None::<ElemV>) by {
        lemma_find_opt_fields(c.custom_fields, "first-name"@);
        lemma_find_append((((opt_leaf_v("payment_method_nonce"@, c.payment_method_nonce) + opt_leaf_v("phone"@, c.phone)) + opt_leaf_v("website"@, c.website)) + opt_customer_card_v(c.credit_card)), opt_fields_v(c.custom_fields), "first-name"@);
    }
}

proof fn lemma_customer_back_id(c: Customer)
    ensures
        find_in(customer_back(c), "id"@) == None::<ElemV>,
{
    reveal(customer_back);
    lemma_customer_tags_distinct();
    assert(find_in(opt_leaf_v("payment_method_nonce"@, c.payment_method_nonce), "id"@) == None::<ElemV>) by {
        lemma_find_opt_leaf("payment_method_nonce"@, c.payment_method_nonce, "id"@);
    }
    assert(find_in((opt_leaf_v("payment_method_nonce"@, c.payment_method_nonce) + opt_leaf_v("phone"@, c.phone)), "id"@) == None::<ElemV>) by {
        lemma_find_opt_leaf("phone"@, c.phone, "id"@);
        lemma_find_append(opt_leaf_v("payment_method_nonce"@, c.payment_method_nonce), opt_leaf_v("phone"@, c.phone), "id"@);
    }
    assert(find_in(((opt_leaf_v("payment_method_nonce"@, c.payment_method_nonce) + opt_leaf_v("phone"@, c.phone)) + opt_leaf_v("website"@, c.website)), "id"@) == None::<ElemV>) by {
        lemma_find_opt_leaf("website"@, c.website, "id"@);
        lemma_find_append((opt_leaf_v("payment_method_nonce"@, c.payment_method_nonce) + opt_leaf_v("phone"@, c.phone)), opt_leaf_v("website"@, c.website), "id"@);
    }
    assert(find_in((((opt_leaf_v("payment_method_nonce"@, c.payment_method_nonce) + opt_leaf_v("phone"@, c.phone)) + opt_leaf_v("website"@, c.website)) + opt_customer_card_v(c.credit_card)), "id"@) == None::<ElemV>) by {
        lemma_find_opt_customer_card(c.credit_card, "id"@);
        lemma_find_append(((opt_leaf_v("payment_method_nonce"@, c.payment_method_nonce) + opt_leaf_v("phone"@, c.phone)) + opt_leaf_v("website"@, c.website)), opt_customer_card_v(c.credit_card), "id"@);
    }
    assert(find_in(((((opt_leaf_v("payment_method_nonce"@, c.payment_method_nonce) + opt_leaf_v("phone"@, c.phone)) + opt_leaf_v("website"@, c.website)) + opt_customer_card_v(c.credit_card)) + opt_fields_v(c.custom_fields)), "id"@) == None::<ElemV>) by {
        lemma_find_opt_fields(c.custom_fields, "id"@);
        lemma_find_append((((opt_leaf_v("payment_method_nonce"@, c.payment_method_nonce) + opt_leaf_v("phone"@, c.phone)) + opt_leaf_v("website"@, c.website)) + opt_customer_card_v(c.credit_card)), opt_fields_v(c.custom_fields), "id"@);
    }
}

proof fn lemma_customer_back_last_name(c: Customer)
    ensures
        find_in(customer_back(c), "last-name"@) == None::<ElemV>,
{
    reveal(customer_back);
    lemma_customer_tags_distinct();
    assert(find_in(opt_leaf_v("payment_method_nonce"@, c.payment_method_nonce), "last-name"@) == None::<ElemV>) by {
        lemma_find_opt_leaf("payment_method_nonce"@, c.payment_method_nonce, "last-name"@);
    }
    assert(find_in((opt_leaf_v("payment_method_nonce"@, c.payment_method_nonce) + opt_leaf_v("phone"@, c.phone)), "last-name"@) == None::<ElemV>) by {
        lemma_find_opt_leaf("phone"@, c.phone, "last-name"@);
        lemma_find_append(opt_leaf_v("payment_method_nonce"@, c.payment_method_nonce), opt_leaf_v("phone"@, c.phone), "last-name"@);
    }
    assert(find_in(((opt_leaf_v("payment_method_nonce"@, c.payment_method_nonce) + opt_leaf_v("phone"@, c.phone)) + opt_leaf_v("website"@, c.website)), "last-name"@) == None::<ElemV>) by {
        lemma_find_opt_leaf("website"@, c.website, "last-name"@);
        lemma_find_append((opt_leaf_v("payment_method_nonce"@, c.payment_method_nonce) + opt_leaf_v("phone"@, c.phone)), opt_leaf_v("website"@, c.website), "last-name"@);
    }
    assert(find_in((((opt_leaf_v("payment_method_nonce"@, c.payment_method_nonce) + opt_leaf_v("phone"@, c.phone)) + opt_leaf_v("website"@, c.website)) + opt_customer_card_v(c.credit_card)), "last-name"@) == None::<ElemV>) by {
        lemma_find_opt_customer_card(c.credit_card, "last-name"@);
        lemma_find_append(((opt_leaf_v("payment_method_nonce"@, c.payment_method_nonce) + opt_leaf_v("phone"@, c.phone)) + opt_leaf_v("website"@, c.website)), opt_customer_card_v(c.credit_card), "last-name"@);
    }
    assert(find_in(((((opt_leaf_v("payment_method_nonce"@, c.payment_method_nonce) + opt_leaf_v("phone"@, c.phone)) + opt_leaf_v("website"@, c.website)) + opt_customer_card_v(c.credit_card)) + opt_fields_v(c.custom_fields)), "last-name"@) == None::<ElemV>) by {
        lemma_find_opt_fields(c.custom_fields, "last-name"@);
        lemma_find_append((((opt_leaf_v("payment_method_nonce"@, c.payment_method_nonce) + opt_leaf_v("phone"@, c.phone)) + opt_leaf_v("website"@, c.website)) + opt_customer_card_v(c.credit_card)), opt_fields_v(c.custom_fields), "last-name"@);
    }
}

proof fn lemma_customer_back_payment_method_nonce(c: Customer)
    ensures
        find_in(customer_back(c), "payment_method_nonce"@) == (match c.payment_method_nonce { Some(s) => Some(leaf_v("payment_method_nonce"@, s@)), None => None }),
{
    reveal(customer_back);
    lemma_customer_tags_distinct();
    assert(find_in(opt_leaf_v("payment_method_nonce"@, c.payment_method_nonce), "payment_method_nonce"@) == (match c.payment_method_nonce { Some(s) => Some(leaf_v("payment_method_nonce"@, s@)), None => None })) by {
        lemma_find_opt_leaf("payment_method_nonce"@, c.payment_method_nonce, "payment_method_nonce"@);
    }
    assert(find_in((opt_leaf_v("payment_method_nonce"@, c.payment_method_nonce) + opt_leaf_v("phone"@, c.phone)), "payment_method_nonce"@) == (match c.payment_method_nonce { Some(s) => Some(leaf_v("payment_method_nonce"@, s@)), None => None })) by {
        lemma_find_opt_leaf("phone"@, c.phone, "payment_method_nonce"@);
        lemma_find_append(opt_leaf_v("payment_method_nonce"@, c.payment_method_nonce), opt_leaf_v("phone"@, c.phone), "payment_method_nonce"@);
    }
    assert(find_in(((opt_leaf_v("payment_method_nonce"@, c.payment_method_nonce) + opt_leaf_v("phone"@, c.phone)) + opt_leaf_v("website"@, c.website)), "payment_method_nonce"@) == (match c.payment_method_nonce { Some(s) => Some(leaf_v("payment_method_nonce"@, s@)), None => None })) by {
        lemma_find_opt_leaf("website"@, c.website, "payment_method_nonce"@);
        lemma_find_append((opt_leaf_v("payment_method_nonce"@, c.payment_method_nonce) + opt_leaf_v("phone"@, c.phone)), opt_leaf_v("website"@, c.website), "payment_method_nonce"@);
    }
    assert(find_in((((opt_leaf_v("payment_method_nonce"@, c.payment_method_nonce) + opt_leaf_v("phone"@, c.phone)) + opt_leaf_v("website"@, c.website)) + opt_customer_card_v(c.credit_card)), "payment_method_nonce"@) == (match c.payment_method_nonce { Some(s) => Some(leaf_v("payment_method_nonce"@, s@)), None => None })) by {
        lemma_find_opt_customer_card(c.credit_card, "payment_method_nonce"@);
        lemma_find_append(((opt_leaf_v("payment_method_nonce"@, c.payment_method_nonce) + opt_leaf_v("phone"@, c.phone)) + opt_leaf_v("website"@, c.website)), opt_customer_card_v(c.credit_card), "payment_method_nonce"@);
    }
    assert(find_in(((((opt_leaf_v("payment_method_nonce"@, c.payment_method_nonce) + opt_leaf_v("phone"@, c.phone)) + opt_leaf_v("website"@, c.website)) + opt_customer_card_v(c.credit_card)) + opt_fields_v(c.custom_fields)), "payment_method_nonce"@) == (match c.payment_method_nonce { Some(s) => Some(leaf_v("payment_method_nonce"@, s@)), None => None })) by {
        lemma_find_opt_fields(c.custom_fields, "payment_method_nonce"@);
        lemma_find_append((((opt_leaf_v("payment_method_nonce"@, c.payment_method_nonce) + opt_leaf_v("phone"@, c.phone)) + opt_leaf_v("website"@, c.website)) + opt_customer_card_v(c.credit_card)), opt_fields_v(c.custom_fields), "payment_method_nonce"@);
    }
}

proof fn lemma_customer_back_phone(c: Customer)
    ensures
        find_in(customer_back(c), "phone"@) == (match c.phone { Some(s) => Some(leaf_v("phone"@, s@)), None => None }),
{
    reveal(customer_back);
    lemma_customer_tags_distinct();
    assert(find_in(opt_leaf_v("payment_method_nonce"@, c.payment_method_nonce), "phone"@) == None::<ElemV>) by {
        lemma_find_opt_leaf("payment_method_nonce"@, c.payment_method_nonce, "phone"@);
    }
    assert(find_in((opt_leaf_v("payment_method_nonce"@, c.payment_method_nonce) + opt_leaf_v("phone"@, c.phone)), "phone"@) == (match c.phone { Some(s) => Some(leaf_v("phone"@, s@)), None => None })) by {
        lemma_find_opt_leaf("phone"@, c.phone, "phone"@);
        lemma_find_append(opt_leaf_v("payment_method_nonce"@, c.payment_method_nonce), opt_leaf_v("phone"@, c.phone), "phone"@);
    }
    assert(find_in(((opt_leaf_v("payment_method_nonce"@, c.payment_method_nonce) + opt_leaf_v("phone"@, c.phone)) + opt_leaf_v("website"@, c.website)), "phone"@) == (match c.phone { Some(s) => Some(leaf_v("phone"@, s@)), None => None })) by {
        lemma_find_opt_leaf("website"@, c.website, "phone"@);
        lemma_find_append((opt_leaf_v("payment_method_nonce"@, c.payment_method_nonce) + opt_leaf_v("phone"@, c.phone)), opt_leaf_v("website"@, c.website), "phone"@);
    }
    assert(find_in((((opt_leaf_v("payment_method_nonce"@, c.payment_method_nonce) + opt_leaf_v("phone"@, c.phone)) + opt_leaf_v("website"@, c.website)) + opt_customer_card_v(c.credit_card)), "phone"@) == (match c.phone { Some(s) => Some(leaf_v("phone"@, s@)), None => None })) by {
        lemma_find_opt_customer_card(c.credit_card, "phone"@);
        lemma_find_append(((opt_leaf_v("payment_method_nonce"@, c.payment_method_nonce) + opt_leaf_v("phone"@, c.phone)) + opt_leaf_v("website"@, c.website)), opt_customer_card_v(c.credit_card), "phone"@);
    }
    assert(find_in(((((opt_leaf_v("payment_method_nonce"@, c.payment_method_nonce) + opt_leaf_v("phone"@, c.phone)) + opt_leaf_v("website"@, c.website)) + opt_customer_card_v(c.credit_card)) + opt_fields_v(c.custom_fields)), "phone"@) == (match c.phone { Some(s) => Some(leaf_v("phone"@, s@)), None => None })) by {
        lemma_find_opt_fields(c.custom_fields, "phone"@);
        lemma_find_append((((opt_leaf_v("payment_method_nonce"@, c.payment_method_nonce) + opt_leaf_v("phone"@, c.phone)) + opt_leaf_v("website"@, c.website)) + opt_customer_card_v(c.credit_card)), opt_fields_v(c.custom_fields), "phone"@);
    }
}

proof fn lemma_customer_back_website(c: Customer)
    ensures
        find_in(customer_back(c), "website"@) == (match c.website { Some(s) => Some(leaf_v("website"@, s@)), None => None }),
{
    reveal(customer_back);
    lemma_customer_tags_distinct();
    assert(find_in(opt_leaf_v("payment_method_nonce"@, c.payment_method_nonce), "website"@) == None::<ElemV>) by {
        lemma_find_opt_leaf("payment_method_nonce"@, c.payment_method_nonce, "website"@);
    }
    assert(find_in((opt_leaf_v("payment_method_nonce"@, c.payment_method_nonce) + opt_leaf_v("phone"@, c.phone)), "website"@) == None::<ElemV>) by {
        lemma_find_opt_leaf("phone"@, c.phone, "website"@);
        lemma_find_append(opt_leaf_v("payment_method_nonce"@, c.payment_method_nonce), opt_leaf_v("phone"@, c.phone), "website"@);
    }
    assert(find_in(((opt_leaf_v("payment_method_nonce"@, c.payment_method_nonce) + opt_leaf_v("phone"@, c.phone)) + opt_leaf_v("website"@, c.website)), "website"@) == (match c.website { Some(s) => Some(leaf_v("website"@, s@)), None => None })) by {
        lemma_find_opt_leaf("website"@, c.website, "website"@);
        lemma_find_append((opt_leaf_v("payment_method_nonce"@, c.payment_method_nonce) + opt_leaf_v("phone"@, c.phone)), opt_leaf_v("website"@, c.website), "website"@);
    }
    assert(find_in((((opt_leaf_v("payment_method_nonce"@, c.payment_method_nonce) + opt_leaf_v("phone"@, c.phone)) + opt_leaf_v("website"@, c.website)) + opt_customer_card_v(c.credit_card)), "website"@) == (match c.website { Some(s) => Some(leaf_v("website"@, s@)), None => None })) by {
        lemma_find_opt_customer_card(c.credit_card, "website"@);
        lemma_find_append(((opt_leaf_v("payment_method_nonce"@, c.payment_method_nonce) + opt_leaf_v("phone"@, c.phone)) + opt_leaf_v("website"@, c.website)), opt_customer_card_v(c.credit_card), "website"@);
    }
    assert(find_in(((((opt_leaf_v("payment_method_nonce"@, c.payment_method_nonce) + opt_leaf_v("phone"@, c.phone)) + opt_leaf_v("website"@, c.website)) + opt_customer_card_v(c.credit_card)) + opt_fields_v(c.custom_fields)), "website"@) == (match c.website { Some(s) => Some(leaf_v("website"@, s@)), None => None })) by {
        lemma_find_opt_fields(c.custom_fields, "website"@);
        lemma_find_append((((opt_leaf_v("payment_method_nonce"@, c.payment_method_nonce) + opt_leaf_v("phone"@, c.phone)) + opt_leaf_v("website"@, c.website)) + opt_customer_card_v(c.credit_card)), opt_fields_v(c.custom_fields), "website"@);
    }
}

proof fn lemma_customer_back_credit_card(c: Customer)
    ensures
        find_in(customer_back(c), "credit_card"@) == (match c.credit_card { Some(cc) => Some(credit_card_elem(cc, "credit_card"@)), None => None }),
{
    reveal(customer_back);
    lemma_customer_tags_distinct();
    assert(find_in(opt_leaf_v("payment_method_nonce"@, c.payment_method_nonce), "credit_card"@) == None::<ElemV>) by {
        lemma_find_opt_leaf("payment_method_nonce"@, c.payment_method_nonce, "credit_card"@);
    }
    assert(find_in((opt_leaf_v("payment_method_nonce"@, c.payment_method_nonce) + opt_leaf_v("phone"@, c.phone)), "credit_card"@) == None::<ElemV>) by {
        lemma_find_opt_leaf("phone"@, c.phone, "credit_card"@);
        lemma_find_append(opt_leaf_v("payment_method_nonce"@, c.payment_method_nonce), opt_leaf_v("phone"@, c.phone), "credit_card"@);
    }
    assert(find_in(((opt_leaf_v("payment_method_nonce"@, c.payment_method_nonce) + opt_leaf_v("phone"@, c.phone)) + opt_leaf_v("website"@, c.website)), "credit_card"@) == None::<ElemV>) by {
        lemma_find_opt_leaf("website"@, c.website, "credit_card"@);
        lemma_find_append((opt_leaf_v("payment_method_nonce"@, c.payment_method_nonce) + opt_leaf_v("phone"@, c.phone)), opt_leaf_v("website"@, c.website), "credit_card"@);
    }
    assert(find_in((((opt_leaf_v("payment_method_nonce"@, c.payment_method_nonce) + opt_leaf_v("phone"@, c.phone)) + opt_leaf_v("website"@, c.website)) + opt_customer_card_v(c.credit_card)), "credit_card"@) == (match c.credit_card { Some(cc) => Some(credit_card_elem(cc, "credit_card"@)), None => None })) by {
        lemma_find_opt_customer_card(c.credit_card, "credit_card"@);
        lemma_find_append(((opt_leaf_v("payment_method_nonce"@, c.payment_method_nonce) + opt_leaf_v("phone"@, c.phone)) + opt_leaf_v("website"@, c.website)), opt_customer_card_v(c.credit_card), "credit_card"@);
    }
    assert(find_in(((((opt_leaf_v("payment_method_nonce"@, c.payment_method_nonce) + opt_leaf_v("phone"@, c.phone)) + opt_leaf_v("website"@, c.website)) + opt_customer_card_v(c.credit_card)) + opt_fields_v(c.custom_fields)), "credit_card"@) == (match c.credit_card { Some(cc) => Some(credit_card_elem(cc, "credit_card"@)), None => None })) by {
        lemma_find_opt_fields(c.custom_fields, "credit_card"@);
        lemma_find_append((((opt_leaf_v("payment_method_nonce"@, c.payment_method_nonce) + opt_leaf_v("phone"@, c.phone)) + opt_leaf_v("website"@, c.website)) + opt_customer_card_v(c.credit_card)), opt_fields_v(c.custom_fields), "credit_card"@);
    }
}

proof fn lemma_customer_back_custom_fields(c: Customer)
    ensures
        find_in(customer_back(c), "custom_fields"@) == (match c.custom_fields { Some(ps) => Some(fields_elem(ps@)), None => None }),
{
    reveal(customer_back);
    lemma_customer_tags_distinct();
    assert(find_in(opt_leaf_v("payment_method_nonce"@, c.payment_method_nonce), "custom_fields"@) == None::<ElemV>) by {
        lemma_find_opt_leaf("payment_method_nonce"@, c.payment_method_nonce, "custom_fields"@);
    }
    assert(find_in((opt_leaf_v("payment_method_nonce"@, c.payment_method_nonce) + opt_leaf_v("phone"@, c.phone)), "custom_fields"@) == None::<ElemV>) by {
        lemma_find_opt_leaf("phone"@, c.phone, "custom_fields"@);
        lemma_find_append(opt_leaf_v("payment_method_nonce"@, c.payment_method_nonce), opt_leaf_v("phone"@, c.phone), "custom_fields"@);
    }
    assert(find_in(((opt_leaf_v("payment_method_nonce"@, c.payment_method_nonce) + opt_leaf_v("phone"@, c.phone)) + opt_leaf_v("website"@, c.website)), "custom_fields"@) == None::<ElemV>) by {
        lemma_find_opt_leaf("website"@, c.website, "custom_fields"@);
        lemma_find_append((opt_leaf_v("payment_method_nonce"@, c.payment_method_nonce) + opt_leaf_v("phone"@, c.phone)), opt_leaf_v("website"@, c.website), "custom_fields"@);
    }
    assert(find_in((((opt_leaf_v("payment_method_nonce"@, c.payment_method_nonce) + opt_leaf_v("phone"@, c.phone)) + opt_leaf_v("website"@, c.website)) + opt_customer_card_v(c.credit_card)), "custom_fields"@) == None::<ElemV>) by {
        lemma_find_opt_customer_card(c.credit_card, "custom_fields"@);
        lemma_find_append(((opt_leaf_v("payment_method_nonce"@, c.payment_method_nonce) + opt_leaf_v("phone"@, c.phone)) + opt_leaf_v("website"@, c.website)), opt_customer_card_v(c.credit_card), "custom_fields"@);
    }
    assert(find_in(((((opt_leaf_v("payment_method_nonce"@, c.payment_method_nonce) + opt_leaf_v("phone"@, c.phone)) + opt_leaf_v("website"@, c.website)) + opt_customer_card_v(c.credit_card)) + opt_fields_v(c.custom_fields)), "custom_fields"@) == (match c.custom_fields { Some(ps) => Some(fields_elem(ps@)), None => None })) by {
        lemma_find_opt_fields(c.custom_fields, "custom_fields"@);
        lemma_find_append((((opt_leaf_v("payment_method_nonce"@, c.payment_method_nonce) + opt_leaf_v("phone"@, c.phone)) + opt_leaf_v("website"@, c.website)) + opt_customer_card_v(c.credit_card)), opt_fields_v(c.custom_fields), "custom_fields"@);
    }
}

proof fn lemma_customer_find_company(c: Customer)
    ensures
        find_in(customer_children(c), "company"@) == (match c.company { Some(s) => Some(leaf_v("company"@, s@)), None => None }),
{
    lemma_customer_front_company(c);
    lemma_customer_back_company(c);
    lemma_find_append(customer_front(c), customer_back(c), "company"@);
}

proof fn lemma_customer_find_email(c: Customer)
    ensures
        find_in(customer_children(c), "email"@) == (match c.email { Some(s) => Some(leaf_v("email"@, s@)), None => None }),
{
    lemma_customer_front_email(c);
    lemma_customer_back_email(c);
    lemma_find_append(customer_front(c), customer_back(c), "email"@);
}

proof fn lemma_customer_find_fax(c: Customer)
    ensures
        find_in(customer_children(c), "fax"@) == (match c.fax { Some(s) => Some(leaf_v("fax"@, s@)), None => None }),
{
    lemma_customer_front_fax(c);
    lemma_customer_back_fax(c);
    lemma_find_append(customer_front(c), customer_back(c), "fax"@);
}

proof fn lemma_customer_find_first_name(c: Customer)
    ensures
        find_in(customer_children(c), "first-name"@) == (match c.first_name { Some(s) => Some(leaf_v("first-name"@, s@)), None => None }),
{
    lemma_customer_front_first_name(c);
    lemma_customer_back_first_name(c);
    lemma_find_append(customer_front(c), customer_back(c), "first-name"@);
}

proof fn lemma_customer_find_id(c: Customer)
    ensures
        find_in(customer_children(c), "id"@) == (match c.id { Some(s) => Some(leaf_v("id"@, s@)), None => None }),
{
    lemma_customer_front_id(c);
    lemma_customer_back_id(c);
    lemma_find_append(customer_front(c), customer_back(c), "id"@);
}

proof fn lemma_customer_find_last_name(c: Customer)
    ensures
        find_in(customer_children(c), "last-name"@) == (match c.last_name { Some(s) => Some(leaf_v("last-name"@, s@)), None => None }),
{
    lemma_customer_front_last_name(c);
    lemma_customer_back_last_name(c);
    lemma_find_append(customer_front(c), customer_back(c), "last-name"@);
}

proof fn lemma_customer_find_payment_method_nonce(c: Customer)
    ensures
        find_in(customer_children(c), "payment_method_nonce"@) == (match c.payment_method_nonce { Some(s) => Some(leaf_v("payment_method_nonce"@, s@)), None => None }),
{
    lemma_customer_front_payment_method_nonce(c);
    lemma_customer_back_payment_method_nonce(c);
    lemma_find_append(customer_front(c), customer_back(c), "payment_method_nonce"@);
}

proof fn lemma_customer_find_phone(c: Customer)
    ensures
        find_in(customer_children(c), "phone"@) == (match c.phone { Some(s) => Some(leaf_v("phone"@, s@)), None => None }),
{
    lemma_customer_front_phone(c);
    lemma_customer_back_phone(c);
    lemma_find_append(customer_front(c), customer_back(c), "phone"@);
}

proof fn lemma_customer_find_website(c: Customer)
    ensures
        find_in(customer_children(c), "website"@) == (match c.website { Some(s) => Some(leaf_v("website"@, s@)), None => None }),
{
    lemma_customer_front_website(c);
    lemma_customer_back_website(c);
    lemma_find_append(customer_front(c), customer_back(c), "website"@);
}

proof fn lemma_customer_find_credit_card(c: Customer)
    ensures
        find_in(customer_children(c), "credit_card"@) == (match c.credit_card { Some(cc) => Some(credit_card_elem(cc, "credit_card"@)), None => None }),
{
    lemma_customer_front_credit_card(c);
    lemma_customer_back_credit_card(c);
    lemma_find_append(customer_front(c), customer_back(c), "credit_card"@);
}

proof fn lemma_customer_find_custom_fields(c: Customer)
    ensures
        find_in(customer_children(c), "custom_fields"@) == (match c.custom_fields { Some(ps) => Some(fields_elem(ps@)), None => None }),
{
    lemma_customer_front_custom_fields(c);
    lemma_customer_back_custom_fields(c);
    lemma_find_append(customer_front(c), customer_back(c), "custom_fields"@);
}

/// Law: encoding exposes exactly the declared fields: each present scalar
/// field becomes the text of its tag's child, a present card and present
/// custom fields each become one nested element, and absent fields leave
/// no child. The encoded element therefore matches the record itself, and
/// decoding it gives back every field value.
pub proof fn lemma_customer_round_trip(c: Customer, name: Seq<char>)
    ensures
        child_text(customer_elem(c, name), "company"@) == opt_view(c.company),
        child_text(customer_elem(c, name), "email"@) == opt_view(c.email),
        child_text(customer_elem(c, name), "fax"@) == opt_view(c.fax),
        child_text(customer_elem(c, name), "first-name"@) == opt_view(c.first_name),
        child_text(customer_elem(c, name), "id"@) == opt_view(c.id),
        child_text(customer_elem(c, name), "last-name"@) == opt_view(c.last_name),
        child_text(customer_elem(c, name), "payment_method_nonce"@) == opt_view(c.payment_method_nonce),
        child_text(customer_elem(c, name), "phone"@) == opt_view(c.phone),
        child_text(customer_elem(c, name), "website"@) == opt_view(c.website),
        find_child(customer_elem(c, name), "credit_card"@) == (match c.credit_card {
            Some(cc) => Some(credit_card_elem(cc, "credit_card"@)),
            None => None,
        }),
        find_child(customer_elem(c, name), "custom_fields"@) == (match c.custom_fields {
            Some(ps) => Some(fields_elem(ps@)),
            None => None,
        }),
        customer_matches(c, customer_elem(c, name)),
{
    lemma_customer_find_company(c);
    lemma_customer_find_email(c);
    lemma_customer_find_fax(c);
    lemma_customer_find_first_name(c);
    lemma_customer_find_id(c);
    lemma_customer_find_last_name(c);
    lemma_customer_find_payment_method_nonce(c);
    lemma_customer_find_phone(c);
    lemma_customer_find_website(c);
    lemma_customer_find_credit_card(c);
    lemma_customer_find_custom_fields(c);
    match c.credit_card {
        Some(cc) => {
            lemma_credit_card_round_trip(cc, "credit_card"@);
        },
        None => {
        },
    }
    match c.custom_fields {
        Some(ps) => {
            lemma_pairs_round_trip(ps@);
        },
        None => {
        },
    }
}

/// The tags the customer codec declares are valid element names.
proof fn lemma_customer_tags_wf()
    ensures
        wf_name("company"@) && wf_name("email"@) && wf_name("fax"@) && wf_name("first-name"@) && wf_name("id"@) && wf_name("last-name"@) && wf_name("payment_method_nonce"@) && wf_name("phone"@) && wf_name("website"@) && wf_name("credit_card"@) && wf_name("custom_fields"@),
{
    reveal_strlit("company");
    reveal_strlit("email");
    reveal_strlit("fax");
    reveal_strlit("first-name");
    reveal_strlit("id");
    reveal_strlit("last-name");
    reveal_strlit("payment_method_nonce");
    reveal_strlit("phone");
    reveal_strlit("website");
    reveal_strlit("credit_card");
    reveal_strlit("custom_fields");
    assert(wf_name("company"@));
    assert(wf_name("email"@));
    assert(wf_name("fax"@));
    assert(wf_name("first-name"@));
    assert(wf_name("id"@));
    assert(wf_name("last-name"@));
    assert(wf_name("payment_method_nonce"@));
    assert(wf_name("phone"@));
    assert(wf_name("website"@));
    assert(wf_name("credit_card"@));
    assert(wf_name("custom_fields"@));
}

/// Whether every custom-field key is a valid element name. Keys are
/// emitted verbatim, so this is the caller's responsibility.
pub open spec fn wf_keys(ps: Seq<(String, String)>) -> bool {
    forall|i: int| 0 <= i < ps.len() ==> wf_name((#[trigger] ps[i]).0@)
}

proof fn lemma_wf_fields(ps: Seq<(String, String)>)
    requires
        wf_keys(ps),
    ensures
        wf_elem(fields_elem(ps)),
{
    broadcast use lemma_pairs_children_len, lemma_pairs_children_index;

    lemma_customer_tags_wf();
    assert forall|i: int| 0 <= i < pairs_children(ps).len() implies wf_elem(
        #[trigger] pairs_children(ps)[i],
    ) by {
        assert(pairs_children(ps)[i] == leaf_v(ps[i].0@, ps[i].1@));
        assert(wf_name(ps[i].0@));
    }
}

proof fn lemma_wf_opt_card(v: Option<CreditCard>)
    ensures
        forall|i: int| 0 <= i < opt_customer_card_v(v).len() ==> wf_elem(
            #[trigger] opt_customer_card_v(v)[i],
        ),
{
    lemma_customer_tags_wf();
    match v {
        Some(cc) => {
            lemma_credit_card_wf(cc, "credit_card"@);
            assert(opt_customer_card_v(v)[0] == credit_card_elem(cc, "credit_card"@));
        },
        None => {},
    }
}

proof fn lemma_wf_opt_fields(v: Option<Vec<(String, String)>>)
    requires
        v matches Some(ps) ==> wf_keys(ps@),
    ensures
        forall|i: int| 0 <= i < opt_fields_v(v).len() ==> wf_elem(#[trigger] opt_fields_v(v)[i]),
{
    lemma_customer_tags_wf();
    match v {
        Some(ps) => {
            lemma_wf_fields(ps@);
            assert(opt_fields_v(v)[0] == fields_elem(ps@));
        },
        None => {},
    }
}

/// An encoded customer is a canonical element whenever its element name
/// and every custom-field key are valid names, so its serialized document
/// parses back to exactly it.
pub proof fn lemma_customer_wf(c: Customer, name: Seq<char>)
    requires
        wf_name(name),
        c.custom_fields matches Some(ps) ==> wf_keys(ps@),
    ensures
        wf_elem(customer_elem(c, name)),
        canonical_doc(ser_elem(customer_elem(c, name))) == Some(customer_elem(c, name)),
{
    lemma_customer_tags_wf();
    reveal(customer_front);
    reveal(customer_back);
    lemma_wf_opt_leaf("company"@, c.company);
    lemma_wf_opt_leaf("email"@, c.email);
    lemma_wf_opt_leaf("fax"@, c.fax);
    lemma_wf_opt_leaf("first-name"@, c.first_name);
    lemma_wf_opt_leaf("id"@, c.id);
    lemma_wf_opt_leaf("last-name"@, c.last_name);
    lemma_wf_opt_leaf("payment_method_nonce"@, c.payment_method_nonce);
    lemma_wf_opt_leaf("phone"@, c.phone);
    lemma_wf_opt_leaf("website"@, c.website);
    lemma_wf_opt_card(c.credit_card);
    lemma_wf_opt_fields(c.custom_fields);
    lemma_wf_append(opt_leaf_v("company"@, c.company), opt_leaf_v("email"@, c.email));
    lemma_wf_append((opt_leaf_v("company"@, c.company) + opt_leaf_v("email"@, c.email)), opt_leaf_v("fax"@, c.fax));
    lemma_wf_append(((opt_leaf_v("company"@, c.company) + opt_leaf_v("email"@, c.email)) + opt_leaf_v("fax"@, c.fax)), opt_leaf_v("first-name"@, c.first_name));
    lemma_wf_append((((opt_leaf_v("company"@, c.company) + opt_leaf_v("email"@, c.email)) + opt_leaf_v("fax"@, c.fax)) + opt_leaf_v("first-name"@, c.first_name)), opt_leaf_v("id"@, c.id));
    lemma_wf_append(((((opt_leaf_v("company"@, c.company) + opt_leaf_v("email"@, c.email)) + opt_leaf_v("fax"@, c.fax)) + opt_leaf_v("first-name"@, c.first_name)) + opt_leaf_v("id"@, c.id)), opt_leaf_v("last-name"@, c.last_name));
    lemma_wf_append(opt_leaf_v("payment_method_nonce"@, c.payment_method_nonce), opt_leaf_v("phone"@, c.phone));
    lemma_wf_append((opt_leaf_v("payment_method_nonce"@, c.payment_method_nonce) + opt_leaf_v("phone"@, c.phone)), opt_leaf_v("website"@, c.website));
    lemma_wf_append(((opt_leaf_v("payment_method_nonce"@, c.payment_method_nonce) + opt_leaf_v("phone"@, c.phone)) + opt_leaf_v("website"@, c.website)), opt_customer_card_v(c.credit_card));
    lemma_wf_append((((opt_leaf_v("payment_method_nonce"@, c.payment_method_nonce) + opt_leaf_v("phone"@, c.phone)) + opt_leaf_v("website"@, c.website)) + opt_customer_card_v(c.credit_card)), opt_fields_v(c.custom_fields));
    lemma_wf_append(customer_front(c), customer_back(c));
    assert(wf_elem(customer_elem(c, name)));
    lemma_canonical_of_ser(customer_elem(c, name));
}

impl Customer {
    /// Encodes this customer as an element, under `name` or the default
    /// element name. The caller-chosen name is emitted verbatim and must
    /// be a valid element name.
    #[verifier::rlimit(100)]
    pub fn to_element(&self, name: Option<&str>) -> (e: Element)
        ensures
            e@ == customer_elem(*self, chosen_name(name, "customer"@)),
    {
        let mut e = match name {
            Some(n) => Element::node(n),
            None => Element::node("customer"),
        };
        e.push_opt_leaf("company", &self.company);
        e.push_opt_leaf("email", &self.email);
        e.push_opt_leaf("fax", &self.fax);
        e.push_opt_leaf("first-name", &self.first_name);
        e.push_opt_leaf("id", &self.id);
        e.push_opt_leaf("last-name", &self.last_name);
        proof {
            reveal(customer_front);
            assert(Seq::<ElemV>::empty() + opt_leaf_v("company"@, self.company)
                =~= opt_leaf_v("company"@, self.company));
            assert(e@.children =~= customer_front(*self));
        }
        e.push_opt_leaf("payment_method_nonce", &self.payment_method_nonce);
        e.push_opt_leaf("phone", &self.phone);
        e.push_opt_leaf("website", &self.website);
        let ghost mid2 = e@.children;
        match &self.credit_card {
            Some(cc) => {
                e.push_child(cc.to_element(Some("credit_card")));
            },
            None => {
            },
        }
        proof {
            assert(e@.children =~= mid2 + opt_customer_card_v(self.credit_card));
        }
        let ghost mid3 = e@.children;
        match &self.custom_fields {
            Some(ps) => {
                e.push_child(fields_element(ps));
            },
            None => {
            },
        }
        proof {
            assert(e@.children =~= mid3 + opt_fields_v(self.custom_fields));
        }
        proof {
            reveal(customer_back);
            assert(e@.children =~= customer_front(*self) + customer_back(*self));
            assert(e@ =~= customer_elem(*self, chosen_name(name, "customer"@)));
        }
        e
    }

    /// The serialized markup document for this customer.
    pub fn to_xml(&self, name: Option<&str>) -> (s: String)
        ensures
            s@ == ser_elem(customer_elem(*self, chosen_name(name, "customer"@))),
    {
        self.to_element(name).to_markup()
    }

    /// Decodes a customer from an element: each declared field takes the
    /// text of its tag's child where present and stays absent otherwise; a
    /// nested card and the custom-field container decode likewise.
    pub fn from_element(e: &Element) -> (c: Customer)
        ensures
            customer_matches(c, e@),
    {
        let credit_card = match e.find("credit_card") {
            Some(w) => Some(CreditCard::from_element(w)),
            None => None,
        };
        let custom_fields = match e.find("custom_fields") {
            Some(w) => Some(read_fields(w)),
            None => None,
        };
        Customer {
            company: match e.find("company") {
                Some(ch) => Some(ch.text.clone()),
                None => None,
            },
            email: match e.find("email") {
                Some(ch) => Some(ch.text.clone()),
                None => None,
            },
            fax: match e.find("fax") {
                Some(ch) => Some(ch.text.clone()),
                None => None,
            },
            first_name: match e.find("first-name") {
                Some(ch) => Some(ch.text.clone()),
                None => None,
            },
            id: match e.find("id") {
                Some(ch) => Some(ch.text.clone()),
                None => None,
            },
            last_name: match e.find("last-name") {
                Some(ch) => Some(ch.text.clone()),
                None => None,
            },
            payment_method_nonce: match e.find("payment_method_nonce") {
                Some(ch) => Some(ch.text.clone()),
                None => None,
            },
            phone: match e.find("phone") {
                Some(ch) => Some(ch.text.clone()),
                None => None,
            },
            website: match e.find("website") {
                Some(ch) => Some(ch.text.clone()),
                None => None,
            },
            credit_card,
            custom_fields,
        }
    }
}

/// Builds the custom-field container element from the pairs.
#[verifier::loop_isolation(false)]
fn fields_element(ps: &Vec<(String, String)>) -> (e: Element)
    ensures
        e@ == fields_elem(ps@),
{
    broadcast use lemma_pairs_children_len, lemma_pairs_children_index;

    let mut e = Element::node("custom_fields");
    let n = ps.len();
    for i in 0..n
        invariant
            n == ps.len(),
            e@.tag == "custom_fields"@,
            e@.type_attr is None,
            e@.text == Seq::<char>::empty(),
            e@.children == pairs_children(ps@.take(i as int)),
    {
        e.push_child(Element::leaf(ps[i].0.as_str(), ps[i].1.as_str()));
        proof {
            assert(ps@.take(i + 1).drop_last() =~= ps@.take(i as int));
            assert(ps@.take(i + 1).last() == ps@[i as int]);
            assert(pairs_children(ps@.take(i + 1)) == pairs_children(ps@.take(
                i as int)).push(leaf_v(ps@[i as int].0@, ps@[i as int].1@)));
        }
    }
    proof {
        assert(ps@.take(n as int) =~= ps@);
        assert(e@ =~= fields_elem(ps@));
    }
    e
}

/// Reads every child of a custom-field container as a key/value pair,
/// capturing tag and text verbatim, in order.
#[verifier::loop_isolation(false)]
pub fn read_fields(e: &Element) -> (ps: Vec<(String, String)>)
    ensures
        pairs_match(ps@, e@.children),
{
    broadcast use crate::markup::lemma_elems_view_len, crate::markup::lemma_elems_view_index;

    let mut ps: Vec<(String, String)> = Vec::new();
    let n = e.children.len();
    proof {
        assert(e@.children == crate::markup::elems_view(e.children@));
    }
    for i in 0..n
        invariant
            n == e.children.len(),
            ps@.len() == i,
            forall|j: int| 0 <= j < i ==> (#[trigger] ps@[j]).0@ == e@.children[j].tag
                && ps@[j].1@ == e@.children[j].text,
    {
        proof {
            assert(e@.children[i as int] == e.children@[i as int]@);
        }
        ps.push((e.children[i].tag.clone(), e.children[i].text.clone()));
    }
    ps
}

} // verus!
