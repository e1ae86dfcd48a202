//! The credit-card record and its codec. Every declared field maps to its
//! own tag, an optional billing address nests under its own element name,
//! and decoding reads each declared field back optionally, so an encoded
//! card decodes to exactly the record it came from.

use vstd::prelude::*;

use crate::address::{address_elem, address_matches, lemma_address_wf, Address};
use crate::markup::{canonical_doc, child_text, chosen_name, find_child, find_in, leaf_v,
    lemma_canonical_of_ser, lemma_find_append, lemma_find_opt_leaf, lemma_wf_append,
    lemma_wf_opt_leaf, opt_leaf_v, opt_view, ser_elem, wf_elem, wf_name, Element, ElemV};

verus! {

broadcast use vstd::string::group_string_axioms;

/// A credit card; every field is optional.
#[derive(Debug, Default)]
pub struct CreditCard {
    pub cardholder_name: Option<String>,
    pub cvv: Option<String>,
    pub expiration_date: Option<String>,
    pub expiration_month: Option<String>,
    pub expiration_year: Option<String>,
    pub number: Option<String>,
    pub customer_id: Option<String>,
    pub token: Option<String>,
    pub billing_address: Option<Address>,
}

/// Zero or one billing-address elements, depending on presence.
pub open spec fn opt_billing_v(v: Option<Address>) -> Seq<ElemV> {
    match v {
        Some(a) => seq![address_elem(a, "billing-address"@)],
        None => Seq::empty(),
    }
}

/// What searching an optional billing-address segment finds.
proof fn lemma_find_opt_billing(v: Option<Address>, tag: Seq<char>)
    ensures
        find_in(opt_billing_v(v), tag) == (match v {
            Some(a) => if "billing-address"@ == tag {
                Some(address_elem(a, "billing-address"@))
            } else {
                None
            },
            None => None,
        }),
{
    assert(find_in(Seq::<ElemV>::empty(), tag) is None);
    match v {
        Some(a) => {
            assert(opt_billing_v(v)[0] == address_elem(a, "billing-address"@));
            assert(opt_billing_v(v).skip(1) =~= Seq::<ElemV>::empty());
        },
        None => {
            assert(opt_billing_v(v) =~= Seq::<ElemV>::empty());
        },
    }
}

/// The first four children of an encoded card, in encoding order.
#[verifier::opaque]
pub open spec fn credit_card_front(c: CreditCard) -> Seq<ElemV> {
    opt_leaf_v("cardholder-name"@, c.cardholder_name) + opt_leaf_v("cvv"@, c.cvv) + opt_leaf_v("number"@, c.number) + opt_leaf_v("expiration-date"@, c.expiration_date)
}

/// The remaining children of an encoded card, in encoding order.
#[verifier::opaque]
pub open spec fn credit_card_back(c: CreditCard) -> Seq<ElemV> {
    opt_leaf_v("expiration-month"@, c.expiration_month) + opt_leaf_v("expiration-year"@, c.expiration_year) + opt_leaf_v("customer-id"@, c.customer_id) + opt_leaf_v("token"@, c.token) + opt_billing_v(c.billing_address)
}

/// The children of an encoded card: one leaf per present scalar field and
/// one nested element for a present billing address.
pub open spec fn credit_card_children(c: CreditCard) -> Seq<ElemV> {
    credit_card_front(c) + credit_card_back(c)
}

/// The element a card is encoded as, under the given name.
pub open spec fn credit_card_elem(c: CreditCard, name: Seq<char>) -> ElemV {
    ElemV { tag: name, type_attr: None, text: Seq::empty(), children: credit_card_children(c) }
}

/// Whether a record holds, field for field, exactly what the element
/// offers: each declared tag's child text where present, absence where
/// the element has no such child, and the nested billing address likewise.
pub open spec fn credit_card_matches(c: CreditCard, e: ElemV) -> bool {
    &&& opt_view(c.cardholder_name) == child_text(e, "cardholder-name"@)
    &&& opt_view(c.cvv) == child_text(e, "cvv"@)
    &&& opt_view(c.number) == child_text(e, "number"@)
    &&& opt_view(c.expiration_date) == child_text(e, "expiration-date"@)
    &&& opt_view(c.expiration_month) == child_text(e, "expiration-month"@)
    &&& opt_view(c.expiration_year) == child_text(e, "expiration-year"@)
    &&& opt_view(c.customer_id) == child_text(e, "customer-id"@)
    &&& opt_view(c.token) == child_text(e, "token"@)
    &&& match find_child(e, "billing-address"@) {
        Some(b) => c.billing_address matches Some(ba) && address_matches(ba, b),
        None => c.billing_address is None,
    }
}

/// The declared tags are pairwise distinct.
proof fn lemma_credit_card_tags_distinct()
    ensures
        "cardholder-name"@ != "cvv"@,
        "cardholder-name"@ != "number"@,
        "cardholder-name"@ != "expiration-date"@,
        "cardholder-name"@ != "expiration-month"@,
        "cardholder-name"@ != "expiration-year"@,
        "cardholder-name"@ != "customer-id"@,
        "cardholder-name"@ != "token"@,
        "cardholder-name"@ != "billing-address"@,
        "cvv"@ != "number"@,
        "cvv"@ != "expiration-date"@,
        "cvv"@ != "expiration-month"@,
        "cvv"@ != "expiration-year"@,
        "cvv"@ != "customer-id"@,
        "cvv"@ != "token"@,
        "cvv"@ != "billing-address"@,
        "number"@ != "expiration-date"@,
        "number"@ != "expiration-month"@,
        "number"@ != "expiration-year"@,
        "number"@ != "customer-id"@,
        "number"@ != "token"@,
        "number"@ != "billing-address"@,
        "expiration-date"@ != "expiration-month"@,
        "expiration-date"@ != "expiration-year"@,
        "expiration-date"@ != "customer-id"@,
        "expiration-date"@ != "token"@,
        "expiration-date"@ != "billing-address"@,
        "expiration-month"@ != "expiration-year"@,
        "expiration-month"@ != "customer-id"@,
        "expiration-month"@ != "token"@,
        "expiration-month"@ != "billing-address"@,
        "expiration-year"@ != "customer-id"@,
        "expiration-year"@ != "token"@,
        "expiration-year"@ != "billing-address"@,
        "customer-id"@ != "token"@,
        "customer-id"@ != "billing-address"@,
        "token"@ != "billing-address"@,
{
    reveal_strlit("cardholder-name");
    reveal_strlit("cvv");
    reveal_strlit("number");
    reveal_strlit("expiration-date");
    reveal_strlit("expiration-month");
    reveal_strlit("expiration-year");
    reveal_strlit("customer-id");
    reveal_strlit("token");
    reveal_strlit("billing-address");
    assert("cardholder-name"@.len() == 15);
    assert("cvv"@.len() == 3);
    assert("number"@.len() == 6);
    assert("expiration-date"@.len() == 15);
    assert("expiration-month"@.len() == 16);
    assert("expiration-year"@.len() == 15);
    assert("customer-id"@.len() == 11);
    assert("token"@.len() == 5);
    assert("billing-address"@.len() == 15);
    assert("cardholder-name"@[0] == 'c');
    assert("expiration-date"@[0] == 'e');
    assert("cardholder-name"@[0] == 'c');
    assert("expiration-year"@[0] == 'e');
    assert("cardholder-name"@[0] == 'c');
    assert("billing-address"@[0] == 'b');
    assert("expiration-date"@[11] == 'd');
    assert("expiration-year"@[11] == 'y');
    assert("expiration-date"@[0] == 'e');
    assert("billing-address"@[0] == 'b');
    assert("expiration-year"@[0] == 'e');
    assert("billing-address"@[0] == 'b');
    assert("cardholder-name"@ != "cvv"@);
    assert("cardholder-name"@ != "number"@);
    assert("cardholder-name"@ != "expiration-date"@);
    assert("cardholder-name"@ != "expiration-month"@);
    assert("cardholder-name"@ != "expiration-year"@);
    assert("cardholder-name"@ != "customer-id"@);
    assert("cardholder-name"@ != "token"@);
    assert("cardholder-name"@ != "billing-address"@);
    assert("cvv"@ != "number"@);
    assert("cvv"@ != "expiration-date"@);
    assert("cvv"@ != "expiration-month"@);
    assert("cvv"@ != "expiration-year"@);
    assert("cvv"@ != "customer-id"@);
    assert("cvv"@ != "token"@);
    assert("cvv"@ != "billing-address"@);
    assert("number"@ != "expiration-date"@);
    assert("number"@ != "expiration-month"@);
    assert("number"@ != "expiration-year"@);
    assert("number"@ != "customer-id"@);
    assert("number"@ != "token"@);
    assert("number"@ != "billing-address"@);
    assert("expiration-date"@ != "expiration-month"@);
    assert("expiration-date"@ != "expiration-year"@);
    assert("expiration-date"@ != "customer-id"@);
    assert("expiration-date"@ != "token"@);
    assert("expiration-date"@ != "billing-address"@);
    assert("expiration-month"@ != "expiration-year"@);
    assert("expiration-month"@ != "customer-id"@);
    assert("expiration-month"@ != "token"@);
    assert("expiration-month"@ != "billing-address"@);
    assert("expiration-year"@ != "customer-id"@);
    assert("expiration-year"@ != "token"@);
    assert("expiration-year"@ != "billing-address"@);
    assert("customer-id"@ != "token"@);
    assert("customer-id"@ != "billing-address"@);
    assert("token"@ != "billing-address"@);
}

proof fn lemma_credit_card_front_cardholder_name(c: CreditCard)
    ensures
        find_in(credit_card_front(c), "cardholder-name"@) == (match c.cardholder_name { Some(s) => Some(leaf_v("cardholder-name"@, s@)), None => None }),
{
    reveal(credit_card_front);
    lemma_credit_card_tags_distinct();
    assert(find_in(opt_leaf_v("cardholder-name"@, c.cardholder_name), "cardholder-name"@) == (match c.cardholder_name { Some(s) => Some(leaf_v("cardholder-name"@, s@)), None => None })) by {
        lemma_find_opt_leaf("cardholder-name"@, c.cardholder_name, "cardholder-name"@);
    }
    assert(find_in((opt_leaf_v("cardholder-name"@, c.cardholder_name) + opt_leaf_v("cvv"@, c.cvv)), "cardholder-name"@) == (match c.cardholder_name { Some(s) => Some(leaf_v("cardholder-name"@, s@)), None => None })) by {
        lemma_find_opt_leaf("cvv"@, c.cvv, "cardholder-name"@);
        lemma_find_append(opt_leaf_v("cardholder-name"@, c.cardholder_name), opt_leaf_v("cvv"@, c.cvv), "cardholder-name"@);
    }
    assert(find_in(((opt_leaf_v("cardholder-name"@, c.cardholder_name) + opt_leaf_v("cvv"@, c.cvv)) + opt_leaf_v("number"@, c.number)), "cardholder-name"@) == (match c.cardholder_name { Some(s) => Some(leaf_v("cardholder-name"@, s@)), None => None })) by {
        lemma_find_opt_leaf("number"@, c.number, "cardholder-name"@);
        lemma_find_append((opt_leaf_v("cardholder-name"@, c.cardholder_name) + opt_leaf_v("cvv"@, c.cvv)), opt_leaf_v("number"@, c.number), "cardholder-name"@);
    }
    assert(find_in((((opt_leaf_v("cardholder-name"@, c.cardholder_name) + opt_leaf_v("cvv"@, c.cvv)) + opt_leaf_v("number"@, c.number)) + opt_leaf_v("expiration-date"@, c.expiration_date)), "cardholder-name"@) == (match c.cardholder_name { Some(s) => Some(leaf_v("cardholder-name"@, s@)), None => None })) by {
        lemma_find_opt_leaf("expiration-date"@, c.expiration_date, "cardholder-name"@);
        lemma_find_append(((opt_leaf_v("cardholder-name"@, c.cardholder_name) + opt_leaf_v("cvv"@, c.cvv)) + opt_leaf_v("number"@, c.number)), opt_leaf_v("expiration-date"@, c.expiration_date), "cardholder-name"@);
    }
}

proof fn lemma_credit_card_front_cvv(c: CreditCard)
    ensures
        find_in(credit_card_front(c), "cvv"@) == (match c.cvv { Some(s) => Some(leaf_v("cvv"@, s@)), None => None }),
{
    reveal(credit_card_front);
    lemma_credit_card_tags_distinct();
    assert(find_in(opt_leaf_v("cardholder-name"@, c.cardholder_name), "cvv"@) == None::<ElemV>) by {
        lemma_find_opt_leaf("cardholder-name"@, c.cardholder_name, "cvv"@);
    }
    assert(find_in((opt_leaf_v("cardholder-name"@, c.cardholder_name) + opt_leaf_v("cvv"@, c.cvv)), "cvv"@) == (match c.cvv { Some(s) => Some(leaf_v("cvv"@, s@)), None => None })) by {
        lemma_find_opt_leaf("cvv"@, c.cvv, "cvv"@);
        lemma_find_append(opt_leaf_v("cardholder-name"@, c.cardholder_name), opt_leaf_v("cvv"@, c.cvv), "cvv"@);
    }
    assert(find_in(((opt_leaf_v("cardholder-name"@, c.cardholder_name) + opt_leaf_v("cvv"@, c.cvv)) + opt_leaf_v("number"@, c.number)), "cvv"@) == (match c.cvv { Some(s) => Some(leaf_v("cvv"@, s@)), None => None })) by {
        lemma_find_opt_leaf("number"@, c.number, "cvv"@);
        lemma_find_append((opt_leaf_v("cardholder-name"@, c.cardholder_name) + opt_leaf_v("cvv"@, c.cvv)), opt_leaf_v("number"@, c.number), "cvv"@);
    }
    assert(find_in((((opt_leaf_v("cardholder-name"@, c.cardholder_name) + opt_leaf_v("cvv"@, c.cvv)) + opt_leaf_v("number"@, c.number)) + opt_leaf_v("expiration-date"@, c.expiration_date)), "cvv"@) == (match c.cvv { Some(s) => Some(leaf_v("cvv"@, s@)), None => None })) by {
        lemma_find_opt_leaf("expiration-date"@, c.expiration_date, "cvv"@);
        lemma_find_append(((opt_leaf_v("cardholder-name"@, c.cardholder_name) + opt_leaf_v("cvv"@, c.cvv)) + opt_leaf_v("number"@, c.number)), opt_leaf_v("expiration-date"@, c.expiration_date), "cvv"@);
    }
}

proof fn lemma_credit_card_front_number(c: CreditCard)
    ensures
        find_in(credit_card_front(c), "number"@) == (match c.number { Some(s) => Some(leaf_v("number"@, s@)), None => None }),
{
    reveal(credit_card_front);
    lemma_credit_card_tags_distinct();
    assert(find_in(opt_leaf_v("cardholder-name"@, c.cardholder_name), "number"@) == None::<ElemV>) by {
        lemma_find_opt_leaf("cardholder-name"@, c.cardholder_name, "number"@);
    }
    assert(find_in((opt_leaf_v("cardholder-name"@, c.cardholder_name) + opt_leaf_v("cvv"@, c.cvv)), "number"@) == None::<ElemV>) by {
        lemma_find_opt_leaf("cvv"@, c.cvv, "number"@);
        lemma_find_append(opt_leaf_v("cardholder-name"@, c.cardholder_name), opt_leaf_v("cvv"@, c.cvv), "number"@);
    }
    assert(find_in(((opt_leaf_v("cardholder-name"@, c.cardholder_name) + opt_leaf_v("cvv"@, c.cvv)) + opt_leaf_v("number"@, c.number)), "number"@) == (match c.number { Some(s) => Some(leaf_v("number"@, s@)), None => None })) by {
        lemma_find_opt_leaf("number"@, c.number, "number"@);
        lemma_find_append((opt_leaf_v("cardholder-name"@, c.cardholder_name) + opt_leaf_v("cvv"@, c.cvv)), opt_leaf_v("number"@, c.number), "number"@);
    }
    assert(find_in((((opt_leaf_v("cardholder-name"@, c.cardholder_name) + opt_leaf_v("cvv"@, c.cvv)) + opt_leaf_v("number"@, c.number)) + opt_leaf_v("expiration-date"@, c.expiration_date)), "number"@) == (match c.number { Some(s) => Some(leaf_v("number"@, s@)), None => None })) by {
        lemma_find_opt_leaf("expiration-date"@, c.expiration_date, "number"@);
        lemma_find_append(((opt_leaf_v("cardholder-name"@, c.cardholder_name) + opt_leaf_v("cvv"@, c.cvv)) + opt_leaf_v("number"@, c.number)), opt_leaf_v("expiration-date"@, c.expiration_date), "number"@);
    }
}

proof fn lemma_credit_card_front_expiration_date(c: CreditCard)
    ensures
        find_in(credit_card_front(c), "expiration-date"@) == (match c.expiration_date { Some(s) => Some(leaf_v("expiration-date"@, s@)), None => None }),
{
    reveal(credit_card_front);
    lemma_credit_card_tags_distinct();
    assert(find_in(opt_leaf_v("cardholder-name"@, c.cardholder_name), "expiration-date"@) == None::<ElemV>) by {
        lemma_find_opt_leaf("cardholder-name"@, c.cardholder_name, "expiration-date"@);
    }
    assert(find_in((opt_leaf_v("cardholder-name"@, c.cardholder_name) + opt_leaf_v("cvv"@, c.cvv)), "expiration-date"@) == None::<ElemV>) by {
        lemma_find_opt_leaf("cvv"@, c.cvv, "expiration-date"@);
        lemma_find_append(opt_leaf_v("cardholder-name"@, c.cardholder_name), opt_leaf_v("cvv"@, c.cvv), "expiration-date"@);
    }
    assert(find_in(((opt_leaf_v("cardholder-name"@, c.cardholder_name) + opt_leaf_v("cvv"@, c.cvv)) + opt_leaf_v("number"@, c.number)), "expiration-date"@) == None::<ElemV>) by {
        lemma_find_opt_leaf("number"@, c.number, "expiration-date"@);
        lemma_find_append((opt_leaf_v("cardholder-name"@, c.cardholder_name) + opt_leaf_v("cvv"@, c.cvv)), opt_leaf_v("number"@, c.number), "expiration-date"@);
    }
    assert(find_in((((opt_leaf_v("cardholder-name"@, c.cardholder_name) + opt_leaf_v("cvv"@, c.cvv)) + opt_leaf_v("number"@, c.number)) + opt_leaf_v("expiration-date"@, c.expiration_date)), "expiration-date"@) == (match c.expiration_date { Some(s) => Some(leaf_v("expiration-date"@, s@)), None => None })) by {
        lemma_find_opt_leaf("expiration-date"@, c.expiration_date, "expiration-date"@);
        lemma_find_append(((opt_leaf_v("cardholder-name"@, c.cardholder_name) + opt_leaf_v("cvv"@, c.cvv)) + opt_leaf_v("number"@, c.number)), opt_leaf_v("expiration-date"@, c.expiration_date), "expiration-date"@);
    }
}

proof fn lemma_credit_card_front_expiration_month(c: CreditCard)
    ensures
        find_in(credit_card_front(c), "expiration-month"@) == None::<ElemV>,
{
    reveal(credit_card_front);
    lemma_credit_card_tags_distinct();
    assert(find_in(opt_leaf_v("cardholder-name"@, c.cardholder_name), "expiration-month"@) == None::<ElemV>) by {
        lemma_find_opt_leaf("cardholder-name"@, c.cardholder_name, "expiration-month"@);
    }
    assert(find_in((opt_leaf_v("cardholder-name"@, c.cardholder_name) + opt_leaf_v("cvv"@, c.cvv)), "expiration-month"@) == None::<ElemV>) by {
        lemma_find_opt_leaf("cvv"@, c.cvv, "expiration-month"@);
        lemma_find_append(opt_leaf_v("cardholder-name"@, c.cardholder_name), opt_leaf_v("cvv"@, c.cvv), "expiration-month"@);
    }
    assert(find_in(((opt_leaf_v("cardholder-name"@, c.cardholder_name) + opt_leaf_v("cvv"@, c.cvv)) + opt_leaf_v("number"@, c.number)), "expiration-month"@) == None::<ElemV>) by {
        lemma_find_opt_leaf("number"@, c.number, "expiration-month"@);
        lemma_find_append((opt_leaf_v("cardholder-name"@, c.cardholder_name) + opt_leaf_v("cvv"@, c.cvv)), opt_leaf_v("number"@, c.number), "expiration-month"@);
    }
    assert(find_in((((opt_leaf_v("cardholder-name"@, c.cardholder_name) + opt_leaf_v("cvv"@, c.cvv)) + opt_leaf_v("number"@, c.number)) + opt_leaf_v("expiration-date"@, c.expiration_date)), "expiration-month"@) == None::<ElemV>) by {
        lemma_find_opt_leaf("expiration-date"@, c.expiration_date, "expiration-month"@);
        lemma_find_append(((opt_leaf_v("cardholder-name"@, c.cardholder_name) + opt_leaf_v("cvv"@, c.cvv)) + opt_leaf_v("number"@, c.number)), opt_leaf_v("expiration-date"@, c.expiration_date), "expiration-month"@);
    }
}

proof fn lemma_credit_card_front_expiration_year(c: CreditCard)
    ensures
        find_in(credit_card_front(c), "expiration-year"@) == None::<ElemV>,
{
    reveal(credit_card_front);
    lemma_credit_card_tags_distinct();
    assert(find_in(opt_leaf_v("cardholder-name"@, c.cardholder_name), "expiration-year"@) == None::<ElemV>) by {
        lemma_find_opt_leaf("cardholder-name"@, c.cardholder_name, "expiration-year"@);
    }
    assert(find_in((opt_leaf_v("cardholder-name"@, c.cardholder_name) + opt_leaf_v("cvv"@, c.cvv)), "expiration-year"@) == None::<ElemV>) by {
        lemma_find_opt_leaf("cvv"@, c.cvv, "expiration-year"@);
        lemma_find_append(opt_leaf_v("cardholder-name"@, c.cardholder_name), opt_leaf_v("cvv"@, c.cvv), "expiration-year"@);
    }
    assert(find_in(((opt_leaf_v("cardholder-name"@, c.cardholder_name) + opt_leaf_v("cvv"@, c.cvv)) + opt_leaf_v("number"@, c.number)), "expiration-year"@) == None::<ElemV>) by {
        lemma_find_opt_leaf("number"@, c.number, "expiration-year"@);
        lemma_find_append((opt_leaf_v("cardholder-name"@, c.cardholder_name) + opt_leaf_v("cvv"@, c.cvv)), opt_leaf_v("number"@, c.number), "expiration-year"@);
    }
    assert(find_in((((opt_leaf_v("cardholder-name"@, c.cardholder_name) + opt_leaf_v("cvv"@, c.cvv)) + opt_leaf_v("number"@, c.number)) + opt_leaf_v("expiration-date"@, c.expiration_date)), "expiration-year"@) == None::<ElemV>) by {
        lemma_find_opt_leaf("expiration-date"@, c.expiration_date, "expiration-year"@);
        lemma_find_append(((opt_leaf_v("cardholder-name"@, c.cardholder_name) + opt_leaf_v("cvv"@, c.cvv)) + opt_leaf_v("number"@, c.number)), opt_leaf_v("expiration-date"@, c.expiration_date), "expiration-year"@);
    }
}

proof fn lemma_credit_card_front_customer_id(c: CreditCard)
    ensures
        find_in(credit_card_front(c), "customer-id"@) == None::<ElemV>,
{
    reveal(credit_card_front);
    lemma_credit_card_tags_distinct();
    assert(find_in(opt_leaf_v("cardholder-name"@, c.cardholder_name), "customer-id"@) == None::<ElemV>) by {
        lemma_find_opt_leaf("cardholder-name"@, c.cardholder_name, "customer-id"@);
    }
    assert(find_in((opt_leaf_v("cardholder-name"@, c.cardholder_name) + opt_leaf_v("cvv"@, c.cvv)), "customer-id"@) == None::<ElemV>) by {
        lemma_find_opt_leaf("cvv"@, c.cvv, "customer-id"@);
        lemma_find_append(opt_leaf_v("cardholder-name"@, c.cardholder_name), opt_leaf_v("cvv"@, c.cvv), "customer-id"@);
    }
    assert(find_in(((opt_leaf_v("cardholder-name"@, c.cardholder_name) + opt_leaf_v("cvv"@, c.cvv)) + opt_leaf_v("number"@, c.number)), "customer-id"@) == None::<ElemV>) by {
        lemma_find_opt_leaf("number"@, c.number, "customer-id"@);
        lemma_find_append((opt_leaf_v("cardholder-name"@, c.cardholder_name) + opt_leaf_v("cvv"@, c.cvv)), opt_leaf_v("number"@, c.number), "customer-id"@);
    }
    assert(find_in((((opt_leaf_v("cardholder-name"@, c.cardholder_name) + opt_leaf_v("cvv"@, c.cvv)) + opt_leaf_v("number"@, c.number)) + opt_leaf_v("expiration-date"@, c.expiration_date)), "customer-id"@) == None::<ElemV>) by {
        lemma_find_opt_leaf("expiration-date"@, c.expiration_date, "customer-id"@);
        lemma_find_append(((opt_leaf_v("cardholder-name"@, c.cardholder_name) + opt_leaf_v("cvv"@, c.cvv)) + opt_leaf_v("number"@, c.number)), opt_leaf_v("expiration-date"@, c.expiration_date), "customer-id"@);
    }
}

proof fn lemma_credit_card_front_token(c: CreditCard)
    ensures
        find_in(credit_card_front(c), "token"@) == None::<ElemV>,
{
    reveal(credit_card_front);
    lemma_credit_card_tags_distinct();
    assert(find_in(opt_leaf_v("cardholder-name"@, c.cardholder_name), "token"@) == None::<ElemV>) by {
        lemma_find_opt_leaf("cardholder-name"@, c.cardholder_name, "token"@);
    }
    assert(find_in((opt_leaf_v("cardholder-name"@, c.cardholder_name) + opt_leaf_v("cvv"@, c.cvv)), "token"@) == None::<ElemV>) by {
        lemma_find_opt_leaf("cvv"@, c.cvv, "token"@);
        lemma_find_append(opt_leaf_v("cardholder-name"@, c.cardholder_name), opt_leaf_v("cvv"@, c.cvv), "token"@);
    }
    assert(find_in(((opt_leaf_v("cardholder-name"@, c.cardholder_name) + opt_leaf_v("cvv"@, c.cvv)) + opt_leaf_v("number"@, c.number)), "token"@) == None::<ElemV>) by {
        lemma_find_opt_leaf("number"@, c.number, "token"@);
        lemma_find_append((opt_leaf_v("cardholder-name"@, c.cardholder_name) + opt_leaf_v("cvv"@, c.cvv)), opt_leaf_v("number"@, c.number), "token"@);
    }
    assert(find_in((((opt_leaf_v("cardholder-name"@, c.cardholder_name) + opt_leaf_v("cvv"@, c.cvv)) + opt_leaf_v("number"@, c.number)) + opt_leaf_v("expiration-date"@, c.expiration_date)), "token"@) == None::<ElemV>) by {
        lemma_find_opt_leaf("expiration-date"@, c.expiration_date, "token"@);
        lemma_find_append(((opt_leaf_v("cardholder-name"@, c.cardholder_name) + opt_leaf_v("cvv"@, c.cvv)) + opt_leaf_v("number"@, c.number)), opt_leaf_v("expiration-date"@, c.expiration_date), "token"@);
    }
}

proof fn lemma_credit_card_front_billing_address(c: CreditCard)
    ensures
        find_in(credit_card_front(c), "billing-address"@) == None::<ElemV>,
{
    reveal(credit_card_front);
    lemma_credit_card_tags_distinct();
    assert(find_in(opt_leaf_v("cardholder-name"@, c.cardholder_name), "billing-address"@) == None::<ElemV>) by {
        lemma_find_opt_leaf("cardholder-name"@, c.cardholder_name, "billing-address"@);
    }
    assert(find_in((opt_leaf_v("cardholder-name"@, c.cardholder_name) + opt_leaf_v("cvv"@, c.cvv)), "billing-address"@) == None::<ElemV>) by {
        lemma_find_opt_leaf("cvv"@, c.cvv, "billing-address"@);
        lemma_find_append(opt_leaf_v("cardholder-name"@, c.cardholder_name), opt_leaf_v("cvv"@, c.cvv), "billing-address"@);
    }
    assert(find_in(((opt_leaf_v("cardholder-name"@, c.cardholder_name) + opt_leaf_v("cvv"@, c.cvv)) + opt_leaf_v("number"@, c.number)), "billing-address"@) == None::<ElemV>) by {
        lemma_find_opt_leaf("number"@, c.number, "billing-address"@);
        lemma_find_append((opt_leaf_v("cardholder-name"@, c.cardholder_name) + opt_leaf_v("cvv"@, c.cvv)), opt_leaf_v("number"@, c.number), "billing-address"@);
    }
    assert(find_in((((opt_leaf_v("cardholder-name"@, c.cardholder_name) + opt_leaf_v("cvv"@, c.cvv)) + opt_leaf_v("number"@, c.number)) + opt_leaf_v("expiration-date"@, c.expiration_date)), "billing-address"@) == None::<ElemV>) by {
        lemma_find_opt_leaf("expiration-date"@, c.expiration_date, "billing-address"@);
        lemma_find_append(((opt_leaf_v("cardholder-name"@, c.cardholder_name) + opt_leaf_v("cvv"@, c.cvv)) + opt_leaf_v("number"@, c.number)), opt_leaf_v("expiration-date"@, c.expiration_date), "billing-address"@);
    }
}

proof fn lemma_credit_card_back_cardholder_name(c: CreditCard)
    ensures
        find_in(credit_card_back(c), "cardholder-name"@) == None::<ElemV>,
{
    reveal(credit_card_back);
    lemma_credit_card_tags_distinct();
    assert(find_in(opt_leaf_v("expiration-month"@, c.expiration_month), "cardholder-name"@) == None::<ElemV>) by {
        lemma_find_opt_leaf("expiration-month"@, c.expiration_month, "cardholder-name"@);
    }
    assert(find_in((opt_leaf_v("expiration-month"@, c.expiration_month) + opt_leaf_v("expiration-year"@, c.expiration_year)), "cardholder-name"@) == None::<ElemV>) by {
        lemma_find_opt_leaf("expiration-year"@, c.expiration_year, "cardholder-name"@);
        lemma_find_append(opt_leaf_v("expiration-month"@, c.expiration_month), opt_leaf_v("expiration-year"@, c.expiration_year), "cardholder-name"@);
    }
    assert(find_in(((opt_leaf_v("expiration-month"@, c.expiration_month) + opt_leaf_v("expiration-year"@, c.expiration_year)) + opt_leaf_v("customer-id"@, c.customer_id)), "cardholder-name"@) == None::<ElemV>) by {
        lemma_find_opt_leaf("customer-id"@, c.customer_id, "cardholder-name"@);
        lemma_find_append((opt_leaf_v("expiration-month"@, c.expiration_month) + opt_leaf_v("expiration-year"@, c.expiration_year)), opt_leaf_v("customer-id"@, c.customer_id), "cardholder-name"@);
    }
    assert(find_in((((opt_leaf_v("expiration-month"@, c.expiration_month) + opt_leaf_v("expiration-year"@, c.expiration_year)) + opt_leaf_v("customer-id"@, c.customer_id)) + opt_leaf_v("token"@, c.token)), "cardholder-name"@) == None::<ElemV>) by {
        lemma_find_opt_leaf("token"@, c.token, "cardholder-name"@);
        lemma_find_append(((opt_leaf_v("expiration-month"@, c.expiration_month) + opt_leaf_v("expiration-year"@, c.expiration_year)) + opt_leaf_v("customer-id"@, c.customer_id)), opt_leaf_v("token"@, c.token), "cardholder-name"@);
    }
    assert(find_in(((((opt_leaf_v("expiration-month"@, c.expiration_month) + opt_leaf_v("expiration-year"@, c.expiration_year)) + opt_leaf_v("customer-id"@, c.customer_id)) + opt_leaf_v("token"@, c.token)) + opt_billing_v(c.billing_address)), "cardholder-name"@) == None::<ElemV>) by {
        lemma_find_opt_billing(c.billing_address, "cardholder-name"@);
        lemma_find_append((((opt_leaf_v("expiration-month"@, c.expiration_month) + opt_leaf_v("expiration-year"@, c.expiration_year)) + opt_leaf_v("customer-id"@, c.customer_id)) + opt_leaf_v("token"@, c.token)), opt_billing_v(c.billing_address), "cardholder-name"@);
    }
}

proof fn lemma_credit_card_back_cvv(c: CreditCard)
    ensures
        find_in(credit_card_back(c), "cvv"@) == None::<ElemV>,
{
    reveal(credit_card_back);
    lemma_credit_card_tags_distinct();
    assert(find_in(opt_leaf_v("expiration-month"@, c.expiration_month), "cvv"@) == None::<ElemV>) by {
        lemma_find_opt_leaf("expiration-month"@, c.expiration_month, "cvv"@);
    }
    assert(find_in((opt_leaf_v("expiration-month"@, c.expiration_month) + opt_leaf_v("expiration-year"@, c.expiration_year)), "cvv"@) == None::<ElemV>) by {
        lemma_find_opt_leaf("expiration-year"@, c.expiration_year, "cvv"@);
        lemma_find_append(opt_leaf_v("expiration-month"@, c.expiration_month), opt_leaf_v("expiration-year"@, c.expiration_year), "cvv"@);
    }
    assert(find_in(((opt_leaf_v("expiration-month"@, c.expiration_month) + opt_leaf_v("expiration-year"@, c.expiration_year)) + opt_leaf_v("customer-id"@, c.customer_id)), "cvv"@) == None::<ElemV>) by {
        lemma_find_opt_leaf("customer-id"@, c.customer_id, "cvv"@);
        lemma_find_append((opt_leaf_v("expiration-month"@, c.expiration_month) + opt_leaf_v("expiration-year"@, c.expiration_year)), opt_leaf_v("customer-id"@, c.customer_id), "cvv"@);
    }
    assert(find_in((((opt_leaf_v("expiration-month"@, c.expiration_month) + opt_leaf_v("expiration-year"@, c.expiration_year)) + opt_leaf_v("customer-id"@, c.customer_id)) + opt_leaf_v("token"@, c.token)), "cvv"@) == None::<ElemV>) by {
        lemma_find_opt_leaf("token"@, c.token, "cvv"@);
        lemma_find_append(((opt_leaf_v("expiration-month"@, c.expiration_month) + opt_leaf_v("expiration-year"@, c.expiration_year)) + opt_leaf_v("customer-id"@, c.customer_id)), opt_leaf_v("token"@, c.token), "cvv"@);
    }
    assert(find_in(((((opt_leaf_v("expiration-month"@, c.expiration_month) + opt_leaf_v("expiration-year"@, c.expiration_year)) + opt_leaf_v("customer-id"@, c.customer_id)) + opt_leaf_v("token"@, c.token)) + opt_billing_v(c.billing_address)), "cvv"@) == None::<ElemV>) by {
        lemma_find_opt_billing(c.billing_address, "cvv"@);
        lemma_find_append((((opt_leaf_v("expiration-month"@, c.expiration_month) + opt_leaf_v("expiration-year"@, c.expiration_year)) + opt_leaf_v("customer-id"@, c.customer_id)) + opt_leaf_v("token"@, c.token)), opt_billing_v(c.billing_address), "cvv"@);
    }
}

proof fn lemma_credit_card_back_number(c: CreditCard)
    ensures
        find_in(credit_card_back(c), "number"@) == None::<ElemV>,
{
    reveal(credit_card_back);
    lemma_credit_card_tags_distinct();
    assert(find_in(opt_leaf_v("expiration-month"@, c.expiration_month), "number"@) == None::<ElemV>) by {
        lemma_find_opt_leaf("expiration-month"@, c.expiration_month, "number"@);
    }
    assert(find_in((opt_leaf_v("expiration-month"@, c.expiration_month) + opt_leaf_v("expiration-year"@, c.expiration_year)), "number"@) == None::<ElemV>) by {
        lemma_find_opt_leaf("expiration-year"@, c.expiration_year, "number"@);
        lemma_find_append(opt_leaf_v("expiration-month"@, c.expiration_month), opt_leaf_v("expiration-year"@, c.expiration_year), "number"@);
    }
    assert(find_in(((opt_leaf_v("expiration-month"@, c.expiration_month) + opt_leaf_v("expiration-year"@, c.expiration_year)) + opt_leaf_v("customer-id"@, c.customer_id)), "number"@) == None::<ElemV>) by {
        lemma_find_opt_leaf("customer-id"@, c.customer_id, "number"@);
        lemma_find_append((opt_leaf_v("expiration-month"@, c.expiration_month) + opt_leaf_v("expiration-year"@, c.expiration_year)), opt_leaf_v("customer-id"@, c.customer_id), "number"@);
    }
    assert(find_in((((opt_leaf_v("expiration-month"@, c.expiration_month) + opt_leaf_v("expiration-year"@, c.expiration_year)) + opt_leaf_v("customer-id"@, c.customer_id)) + opt_leaf_v("token"@, c.token)), "number"@) == None::<ElemV>) by {
        lemma_find_opt_leaf("token"@, c.token, "number"@);
        lemma_find_append(((opt_leaf_v("expiration-month"@, c.expiration_month) + opt_leaf_v("expiration-year"@, c.expiration_year)) + opt_leaf_v("customer-id"@, c.customer_id)), opt_leaf_v("token"@, c.token), "number"@);
    }
    assert(find_in(((((opt_leaf_v("expiration-month"@, c.expiration_month) + opt_leaf_v("expiration-year"@, c.expiration_year)) + opt_leaf_v("customer-id"@, c.customer_id)) + opt_leaf_v("token"@, c.token)) + opt_billing_v(c.billing_address)), "number"@) == None::<ElemV>) by {
        lemma_find_opt_billing(c.billing_address, "number"@);
        lemma_find_append((((opt_leaf_v("expiration-month"@, c.expiration_month) + opt_leaf_v("expiration-year"@, c.expiration_year)) + opt_leaf_v("customer-id"@, c.customer_id)) + opt_leaf_v("token"@, c.token)), opt_billing_v(c.billing_address), "number"@);
    }
}

proof fn lemma_credit_card_back_expiration_date(c: CreditCard)
    ensures
        find_in(credit_card_back(c), "expiration-date"@) == None::<ElemV>,
{
    reveal(credit_card_back);
    lemma_credit_card_tags_distinct();
    assert(find_in(opt_leaf_v("expiration-month"@, c.expiration_month), "expiration-date"@) == None::<ElemV>) by {
        lemma_find_opt_leaf("expiration-month"@, c.expiration_month, "expiration-date"@);
    }
    assert(find_in((opt_leaf_v("expiration-month"@, c.expiration_month) + opt_leaf_v("expiration-year"@, c.expiration_year)), "expiration-date"@) == None::<ElemV>) by {
        lemma_find_opt_leaf("expiration-year"@, c.expiration_year, "expiration-date"@);
        lemma_find_append(opt_leaf_v("expiration-month"@, c.expiration_month), opt_leaf_v("expiration-year"@, c.expiration_year), "expiration-date"@);
    }
    assert(find_in(((opt_leaf_v("expiration-month"@, c.expiration_month) + opt_leaf_v("expiration-year"@, c.expiration_year)) + opt_leaf_v("customer-id"@, c.customer_id)), "expiration-date"@) == None::<ElemV>) by {
        lemma_find_opt_leaf("customer-id"@, c.customer_id, "expiration-date"@);
        lemma_find_append((opt_leaf_v("expiration-month"@, c.expiration_month) + opt_leaf_v("expiration-year"@, c.expiration_year)), opt_leaf_v("customer-id"@, c.customer_id), "expiration-date"@);
    }
    assert(find_in((((opt_leaf_v("expiration-month"@, c.expiration_month) + opt_leaf_v("expiration-year"@, c.expiration_year)) + opt_leaf_v("customer-id"@, c.customer_id)) + opt_leaf_v("token"@, c.token)), "expiration-date"@) == None::<ElemV>) by {
        lemma_find_opt_leaf("token"@, c.token, "expiration-date"@);
        lemma_find_append(((opt_leaf_v("expiration-month"@, c.expiration_month) + opt_leaf_v("expiration-year"@, c.expiration_year)) + opt_leaf_v("customer-id"@, c.customer_id)), opt_leaf_v("token"@, c.token), "expiration-date"@);
    }
    assert(find_in(((((opt_leaf_v("expiration-month"@, c.expiration_month) + opt_leaf_v("expiration-year"@, c.expiration_year)) + opt_leaf_v("customer-id"@, c.customer_id)) + opt_leaf_v("token"@, c.token)) + opt_billing_v(c.billing_address)), "expiration-date"@) == None::<ElemV>) by {
        lemma_find_opt_billing(c.billing_address, "expiration-date"@);
        lemma_find_append((((opt_leaf_v("expiration-month"@, c.expiration_month) + opt_leaf_v("expiration-year"@, c.expiration_year)) + opt_leaf_v("customer-id"@, c.customer_id)) + opt_leaf_v("token"@, c.token)), opt_billing_v(c.billing_address), "expiration-date"@);
    }
}

proof fn lemma_credit_card_back_expiration_month(c: CreditCard)
    ensures
        find_in(credit_card_back(c), "expiration-month"@) == (match c.expiration_month { Some(s) => Some(leaf_v("expiration-month"@, s@)), None => None }),
{
    reveal(credit_card_back);
    lemma_credit_card_tags_distinct();
    assert(find_in(opt_leaf_v("expiration-month"@, c.expiration_month), "expiration-month"@) == (match c.expiration_month { Some(s) => Some(leaf_v("expiration-month"@, s@)), None => None })) by {
        lemma_find_opt_leaf("expiration-month"@, c.expiration_month, "expiration-month"@);
    }
    assert(find_in((opt_leaf_v("expiration-month"@, c.expiration_month) + opt_leaf_v("expiration-year"@, c.expiration_year)), "expiration-month"@) == (match c.expiration_month { Some(s) => Some(leaf_v("expiration-month"@, s@)), None => None })) by {
        lemma_find_opt_leaf("expiration-year"@, c.expiration_year, "expiration-month"@);
        lemma_find_append(opt_leaf_v("expiration-month"@, c.expiration_month), opt_leaf_v("expiration-year"@, c.expiration_year), "expiration-month"@);
    }
    assert(find_in(((opt_leaf_v("expiration-month"@, c.expiration_month) + opt_leaf_v("expiration-year"@, c.expiration_year)) + opt_leaf_v("customer-id"@, c.customer_id)), "expiration-month"@) == (match c.expiration_month { Some(s) => Some(leaf_v("expiration-month"@, s@)), None => None })) by {
        lemma_find_opt_leaf("customer-id"@, c.customer_id, "expiration-month"@);
        lemma_find_append((opt_leaf_v("expiration-month"@, c.expiration_month) + opt_leaf_v("expiration-year"@, c.expiration_year)), opt_leaf_v("customer-id"@, c.customer_id), "expiration-month"@);
    }
    assert(find_in((((opt_leaf_v("expiration-month"@, c.expiration_month) + opt_leaf_v("expiration-year"@, c.expiration_year)) + opt_leaf_v("customer-id"@, c.customer_id)) + opt_leaf_v("token"@, c.token)), "expiration-month"@) == (match c.expiration_month { Some(s) => Some(leaf_v("expiration-month"@, s@)), None => None })) by {
        lemma_find_opt_leaf("token"@, c.token, "expiration-month"@);
        lemma_find_append(((opt_leaf_v("expiration-month"@, c.expiration_month) + opt_leaf_v("expiration-year"@, c.expiration_year)) + opt_leaf_v("customer-id"@, c.customer_id)), opt_leaf_v("token"@, c.token), "expiration-month"@);
    }
    assert(find_in(((((opt_leaf_v("expiration-month"@, c.expiration_month) + opt_leaf_v("expiration-year"@, c.expiration_year)) + opt_leaf_v("customer-id"@, c.customer_id)) + opt_leaf_v("token"@, c.token)) + opt_billing_v(c.billing_address)), "expiration-month"@) == (match c.expiration_month { Some(s) => Some(leaf_v("expiration-month"@, s@)), None => None })) by {
        lemma_find_opt_billing(c.billing_address, "expiration-month"@);
        lemma_find_append((((opt_leaf_v("expiration-month"@, c.expiration_month) + opt_leaf_v("expiration-year"@, c.expiration_year)) + opt_leaf_v("customer-id"@, c.customer_id)) + opt_leaf_v("token"@, c.token)), opt_billing_v(c.billing_address), "expiration-month"@);
    }
}

proof fn lemma_credit_card_back_expiration_year(c: CreditCard)
    ensures
        find_in(credit_card_back(c), "expiration-year"@) == (match c.expiration_year { Some(s) => Some(leaf_v("expiration-year"@, s@)), None => None }),
{
    reveal(credit_card_back);
    lemma_credit_card_tags_distinct();
    assert(find_in(opt_leaf_v("expiration-month"@, c.expiration_month), "expiration-year"@) == None::<ElemV>) by {
        lemma_find_opt_leaf("expiration-month"@, c.expiration_month, "expiration-year"@);
    }
    assert(find_in((opt_leaf_v("expiration-month"@, c.expiration_month) + opt_leaf_v("expiration-year"@, c.expiration_year)), "expiration-year"@) == (match c.expiration_year { Some(s) => Some(leaf_v("expiration-year"@, s@)), None => None })) by {
        lemma_find_opt_leaf("expiration-year"@, c.expiration_year, "expiration-year"@);
        lemma_find_append(opt_leaf_v("expiration-month"@, c.expiration_month), opt_leaf_v("expiration-year"@, c.expiration_year), "expiration-year"@);
    }
    assert(find_in(((opt_leaf_v("expiration-month"@, c.expiration_month) + opt_leaf_v("expiration-year"@, c.expiration_year)) + opt_leaf_v("customer-id"@, c.customer_id)), "expiration-year"@) == (match c.expiration_year { Some(s) => Some(leaf_v("expiration-year"@, s@)), None => None })) by {
        lemma_find_opt_leaf("customer-id"@, c.customer_id, "expiration-year"@);
        lemma_find_append((opt_leaf_v("expiration-month"@, c.expiration_month) + opt_leaf_v("expiration-year"@, c.expiration_year)), opt_leaf_v("customer-id"@, c.customer_id), "expiration-year"@);
    }
    assert(find_in((((opt_leaf_v("expiration-month"@, c.expiration_month) + opt_leaf_v("expiration-year"@, c.expiration_year)) + opt_leaf_v("customer-id"@, c.customer_id)) + opt_leaf_v("token"@, c.token)), "expiration-year"@) == (match c.expiration_year { Some(s) => Some(leaf_v("expiration-year"@, s@)), None => None })) by {
        lemma_find_opt_leaf("token"@, c.token, "expiration-year"@);
        lemma_find_append(((opt_leaf_v("expiration-month"@, c.expiration_month) + opt_leaf_v("expiration-year"@, c.expiration_year)) + opt_leaf_v("customer-id"@, c.customer_id)), opt_leaf_v("token"@, c.token), "expiration-year"@);
    }
    assert(find_in(((((opt_leaf_v("expiration-month"@, c.expiration_month) + opt_leaf_v("expiration-year"@, c.expiration_year)) + opt_leaf_v("customer-id"@, c.customer_id)) + opt_leaf_v("token"@, c.token)) + opt_billing_v(c.billing_address)), "expiration-year"@) == (match c.expiration_year { Some(s) => Some(leaf_v("expiration-year"@, s@)), None => None })) by {
        lemma_find_opt_billing(c.billing_address, "expiration-year"@);
        lemma_find_append((((opt_leaf_v("expiration-month"@, c.expiration_month) + opt_leaf_v("expiration-year"@, c.expiration_year)) + opt_leaf_v("customer-id"@, c.customer_id)) + opt_leaf_v("token"@, c.token)), opt_billing_v(c.billing_address), "expiration-year"@);
    }
}

proof fn lemma_credit_card_back_customer_id(c: CreditCard)
    ensures
        find_in(credit_card_back(c), "customer-id"@) == (match c.customer_id { Some(s) => Some(leaf_v("customer-id"@, s@)), None => None }),
{
    reveal(credit_card_back);
    lemma_credit_card_tags_distinct();
    assert(find_in(opt_leaf_v("expiration-month"@, c.expiration_month), "customer-id"@) == None::<ElemV>) by {
        lemma_find_opt_leaf("expiration-month"@, c.expiration_month, "customer-id"@);
    }
    assert(find_in((opt_leaf_v("expiration-month"@, c.expiration_month) + opt_leaf_v("expiration-year"@, c.expiration_year)), "customer-id"@) == None::<ElemV>) by {
        lemma_find_opt_leaf("expiration-year"@, c.expiration_year, "customer-id"@);
        lemma_find_append(opt_leaf_v("expiration-month"@, c.expiration_month), opt_leaf_v("expiration-year"@, c.expiration_year), "customer-id"@);
    }
    assert(find_in(((opt_leaf_v("expiration-month"@, c.expiration_month) + opt_leaf_v("expiration-year"@, c.expiration_year)) + opt_leaf_v("customer-id"@, c.customer_id)), "customer-id"@) == (match c.customer_id { Some(s) => Some(leaf_v("customer-id"@, s@)), None => None })) by {
        lemma_find_opt_leaf("customer-id"@, c.customer_id, "customer-id"@);
        lemma_find_append((opt_leaf_v("expiration-month"@, c.expiration_month) + opt_leaf_v("expiration-year"@, c.expiration_year)), opt_leaf_v("customer-id"@, c.customer_id), "customer-id"@);
    }
    assert(find_in((((opt_leaf_v("expiration-month"@, c.expiration_month) + opt_leaf_v("expiration-year"@, c.expiration_year)) + opt_leaf_v("customer-id"@, c.customer_id)) + opt_leaf_v("token"@, c.token)), "customer-id"@) == (match c.customer_id { Some(s) => Some(leaf_v("customer-id"@, s@)), None => None })) by {
        lemma_find_opt_leaf("token"@, c.token, "customer-id"@);
        lemma_find_append(((opt_leaf_v("expiration-month"@, c.expiration_month) + opt_leaf_v("expiration-year"@, c.expiration_year)) + opt_leaf_v("customer-id"@, c.customer_id)), opt_leaf_v("token"@, c.token), "customer-id"@);
    }
    assert(find_in(((((opt_leaf_v("expiration-month"@, c.expiration_month) + opt_leaf_v("expiration-year"@, c.expiration_year)) + opt_leaf_v("customer-id"@, c.customer_id)) + opt_leaf_v("token"@, c.token)) + opt_billing_v(c.billing_address)), "customer-id"@) == (match c.customer_id { Some(s) => Some(leaf_v("customer-id"@, s@)), None => None })) by {
        lemma_find_opt_billing(c.billing_address, "customer-id"@);
        lemma_find_append((((opt_leaf_v("expiration-month"@, c.expiration_month) + opt_leaf_v("expiration-year"@, c.expiration_year)) + opt_leaf_v("customer-id"@, c.customer_id)) + opt_leaf_v("token"@, c.token)), opt_billing_v(c.billing_address), "customer-id"@);
    }
}

proof fn lemma_credit_card_back_token(c: CreditCard)
    ensures
        find_in(credit_card_back(c), "token"@) == (match c.token { Some(s) => Some(leaf_v("token"@, s@)), None => None }),
{
    reveal(credit_card_back);
    lemma_credit_card_tags_distinct();
    assert(find_in(opt_leaf_v("expiration-month"@, c.expiration_month), "token"@) == None::<ElemV>) by {
        lemma_find_opt_leaf("expiration-month"@, c.expiration_month, "token"@);
    }
    assert(find_in((opt_leaf_v("expiration-month"@, c.expiration_month) + opt_leaf_v("expiration-year"@, c.expiration_year)), "token"@) == None::<ElemV>) by {
        lemma_find_opt_leaf("expiration-year"@, c.expiration_year, "token"@);
        lemma_find_append(opt_leaf_v("expiration-month"@, c.expiration_month), opt_leaf_v("expiration-year"@, c.expiration_year), "token"@);
    }
    assert(find_in(((opt_leaf_v("expiration-month"@, c.expiration_month) + opt_leaf_v("expiration-year"@, c.expiration_year)) + opt_leaf_v("customer-id"@, c.customer_id)), "token"@) == None::<ElemV>) by {
        lemma_find_opt_leaf("customer-id"@, c.customer_id, "token"@);
        lemma_find_append((opt_leaf_v("expiration-month"@, c.expiration_month) + opt_leaf_v("expiration-year"@, c.expiration_year)), opt_leaf_v("customer-id"@, c.customer_id), "token"@);
    }
    assert(find_in((((opt_leaf_v("expiration-month"@, c.expiration_month) + opt_leaf_v("expiration-year"@, c.expiration_year)) + opt_leaf_v("customer-id"@, c.customer_id)) + opt_leaf_v("token"@, c.token)), "token"@) == (match c.token { Some(s) => Some(leaf_v("token"@, s@)), None => None })) by {
        lemma_find_opt_leaf("token"@, c.token, "token"@);
        lemma_find_append(((opt_leaf_v("expiration-month"@, c.expiration_month) + opt_leaf_v("expiration-year"@, c.expiration_year)) + opt_leaf_v("customer-id"@, c.customer_id)), opt_leaf_v("token"@, c.token), "token"@);
    }
    assert(find_in(((((opt_leaf_v("expiration-month"@, c.expiration_month) + opt_leaf_v("expiration-year"@, c.expiration_year)) + opt_leaf_v("customer-id"@, c.customer_id)) + opt_leaf_v("token"@, c.token)) + opt_billing_v(c.billing_address)), "token"@) == (match c.token { Some(s) => Some(leaf_v("token"@, s@)), None => None })) by {
        lemma_find_opt_billing(c.billing_address, "token"@);
        lemma_find_append((((opt_leaf_v("expiration-month"@, c.expiration_month) + opt_leaf_v("expiration-year"@, c.expiration_year)) + opt_leaf_v("customer-id"@, c.customer_id)) + opt_leaf_v("token"@, c.token)), opt_billing_v(c.billing_address), "token"@);
    }
}

proof fn lemma_credit_card_back_billing_address(c: CreditCard)
    ensures
        find_in(credit_card_back(c), "billing-address"@) == (match c.billing_address { Some(b) => Some(address_elem(b, "billing-address"@)), None => None }),
{
    reveal(credit_card_back);
    lemma_credit_card_tags_distinct();
    assert(find_in(opt_leaf_v("expiration-month"@, c.expiration_month), "billing-address"@) == None::<ElemV>) by {
        lemma_find_opt_leaf("expiration-month"@, c.expiration_month, "billing-address"@);
    }
    assert(find_in((opt_leaf_v("expiration-month"@, c.expiration_month) + opt_leaf_v("expiration-year"@, c.expiration_year)), "billing-address"@) == None::<ElemV>) by {
        lemma_find_opt_leaf("expiration-year"@, c.expiration_year, "billing-address"@);
        lemma_find_append(opt_leaf_v("expiration-month"@, c.expiration_month), opt_leaf_v("expiration-year"@, c.expiration_year), "billing-address"@);
    }
    assert(find_in(((opt_leaf_v("expiration-month"@, c.expiration_month) + opt_leaf_v("expiration-year"@, c.expiration_year)) + opt_leaf_v("customer-id"@, c.customer_id)), "billing-address"@) == None::<ElemV>) by {
        lemma_find_opt_leaf("customer-id"@, c.customer_id, "billing-address"@);
        lemma_find_append((opt_leaf_v("expiration-month"@, c.expiration_month) + opt_leaf_v("expiration-year"@, c.expiration_year)), opt_leaf_v("customer-id"@, c.customer_id), "billing-address"@);
    }
    assert(find_in((((opt_leaf_v("expiration-month"@, c.expiration_month) + opt_leaf_v("expiration-year"@, c.expiration_year)) + opt_leaf_v("customer-id"@, c.customer_id)) + opt_leaf_v("token"@, c.token)), "billing-address"@) == None::<ElemV>) by {
        lemma_find_opt_leaf("token"@, c.token, "billing-address"@);
        lemma_find_append(((opt_leaf_v("expiration-month"@, c.expiration_month) + opt_leaf_v("expiration-year"@, c.expiration_year)) + opt_leaf_v("customer-id"@, c.customer_id)), opt_leaf_v("token"@, c.token), "billing-address"@);
    }
    assert(find_in(((((opt_leaf_v("expiration-month"@, c.expiration_month) + opt_leaf_v("expiration-year"@, c.expiration_year)) + opt_leaf_v("customer-id"@, c.customer_id)) + opt_leaf_v("token"@, c.token)) + opt_billing_v(c.billing_address)), "billing-address"@) == (match c.billing_address { Some(b) => Some(address_elem(b, "billing-address"@)), None => None })) by {
        lemma_find_opt_billing(c.billing_address, "billing-address"@);
        lemma_find_append((((opt_leaf_v("expiration-month"@, c.expiration_month) + opt_leaf_v("expiration-year"@, c.expiration_year)) + opt_leaf_v("customer-id"@, c.customer_id)) + opt_leaf_v("token"@, c.token)), opt_billing_v(c.billing_address), "billing-address"@);
    }
}

proof fn lemma_credit_card_find_cardholder_name(c: CreditCard)
    ensures
        find_in(credit_card_children(c), "cardholder-name"@) == (match c.cardholder_name { Some(s) => Some(leaf_v("cardholder-name"@, s@)), None => None }),
{
    lemma_credit_card_front_cardholder_name(c);
    lemma_credit_card_back_cardholder_name(c);
    lemma_find_append(credit_card_front(c), credit_card_back(c), "cardholder-name"@);
}

proof fn lemma_credit_card_find_cvv(c: CreditCard)
    ensures
        find_in(credit_card_children(c), "cvv"@) == (match c.cvv { Some(s) => Some(leaf_v("cvv"@, s@)), None => None }),
{
    lemma_credit_card_front_cvv(c);
    lemma_credit_card_back_cvv(c);
    lemma_find_append(credit_card_front(c), credit_card_back(c), "cvv"@);
}

proof fn lemma_credit_card_find_number(c: CreditCard)
    ensures
        find_in(credit_card_children(c), "number"@) == (match c.number { Some(s) => Some(leaf_v("number"@, s@)), None => None }),
{
    lemma_credit_card_front_number(c);
    lemma_credit_card_back_number(c);
    lemma_find_append(credit_card_front(c), credit_card_back(c), "number"@);
}

proof fn lemma_credit_card_find_expiration_date(c: CreditCard)
    ensures
        find_in(credit_card_children(c), "expiration-date"@) == (match c.expiration_date { Some(s) => Some(leaf_v("expiration-date"@, s@)), None => None }),
{
    lemma_credit_card_front_expiration_date(c);
    lemma_credit_card_back_expiration_date(c);
    lemma_find_append(credit_card_front(c), credit_card_back(c), "expiration-date"@);
}

proof fn lemma_credit_card_find_expiration_month(c: CreditCard)
    ensures
        find_in(credit_card_children(c), "expiration-month"@) == (match c.expiration_month { Some(s) => Some(leaf_v("expiration-month"@, s@)), None => None }),
{
    lemma_credit_card_front_expiration_month(c);
    lemma_credit_card_back_expiration_month(c);
    lemma_find_append(credit_card_front(c), credit_card_back(c), "expiration-month"@);
}

proof fn lemma_credit_card_find_expiration_year(c: CreditCard)
    ensures
        find_in(credit_card_children(c), "expiration-year"@) == (match c.expiration_year { Some(s) => Some(leaf_v("expiration-year"@, s@)), None => None }),
{
    lemma_credit_card_front_expiration_year(c);
    lemma_credit_card_back_expiration_year(c);
    lemma_find_append(credit_card_front(c), credit_card_back(c), "expiration-year"@);
}

proof fn lemma_credit_card_find_customer_id(c: CreditCard)
    ensures
        find_in(credit_card_children(c), "customer-id"@) == (match c.customer_id { Some(s) => Some(leaf_v("customer-id"@, s@)), None => None }),
{
    lemma_credit_card_front_customer_id(c);
    lemma_credit_card_back_customer_id(c);
    lemma_find_append(credit_card_front(c), credit_card_back(c), "customer-id"@);
}

proof fn lemma_credit_card_find_token(c: CreditCard)
    ensures
        find_in(credit_card_children(c), "token"@) == (match c.token { Some(s) => Some(leaf_v("token"@, s@)), None => None }),
{
    lemma_credit_card_front_token(c);
    lemma_credit_card_back_token(c);
    lemma_find_append(credit_card_front(c), credit_card_back(c), "token"@);
}

proof fn lemma_credit_card_find_billing_address(c: CreditCard)
    ensures
        find_in(credit_card_children(c), "billing-address"@) == (match c.billing_address { Some(b) => Some(address_elem(b, "billing-address"@)), None => None }),
{
    lemma_credit_card_front_billing_address(c);
    lemma_credit_card_back_billing_address(c);
    lemma_find_append(credit_card_front(c), credit_card_back(c), "billing-address"@);
}

/// Law: encoding exposes exactly the declared fields: each present field
/// becomes the text of its tag's child, a present billing address becomes
/// a nested element, and absent fields leave no child. The encoded
/// element therefore matches the record itself, and decoding it gives
/// back every field value.
pub proof fn lemma_credit_card_round_trip(c: CreditCard, name: Seq<char>)
    ensures
        child_text(credit_card_elem(c, name), "cardholder-name"@) == opt_view(c.cardholder_name),
        child_text(credit_card_elem(c, name), "cvv"@) == opt_view(c.cvv),
        child_text(credit_card_elem(c, name), "number"@) == opt_view(c.number),
        child_text(credit_card_elem(c, name), "expiration-date"@) == opt_view(c.expiration_date),
        child_text(credit_card_elem(c, name), "expiration-month"@) == opt_view(c.expiration_month),
        child_text(credit_card_elem(c, name), "expiration-year"@) == opt_view(c.expiration_year),
        child_text(credit_card_elem(c, name), "customer-id"@) == opt_view(c.customer_id),
        child_text(credit_card_elem(c, name), "token"@) == opt_view(c.token),
        find_child(credit_card_elem(c, name), "billing-address"@) == (match c.billing_address {
            Some(b) => Some(address_elem(b, "billing-address"@)),
            None => None,
        }),
        credit_card_matches(c, credit_card_elem(c, name)),
{
    lemma_credit_card_find_cardholder_name(c);
    lemma_credit_card_find_cvv(c);
    lemma_credit_card_find_number(c);
    lemma_credit_card_find_expiration_date(c);
    lemma_credit_card_find_expiration_month(c);
    lemma_credit_card_find_expiration_year(c);
    lemma_credit_card_find_customer_id(c);
    lemma_credit_card_find_token(c);
    lemma_credit_card_find_billing_address(c);
    match c.billing_address {
        Some(b) => {
            crate::address::lemma_address_round_trip(b, "billing-address"@);
        },
        None => {
        },
    }
}

/// The tags the card codec declares are valid element names.
proof fn lemma_credit_card_tags_wf()
    ensures
        wf_name("cardholder-name"@) && wf_name("cvv"@) && wf_name("number"@) && wf_name("expiration-date"@) && wf_name("expiration-month"@) && wf_name("expiration-year"@) && wf_name("customer-id"@) && wf_name("token"@) && wf_name("billing-address"@),
{
    reveal_strlit("cardholder-name");
    reveal_strlit("cvv");
    reveal_strlit("number");
    reveal_strlit("expiration-date");
    reveal_strlit("expiration-month");
    reveal_strlit("expiration-year");
    reveal_strlit("customer-id");
    reveal_strlit("token");
    reveal_strlit("billing-address");
    assert(wf_name("cardholder-name"@));
    assert(wf_name("cvv"@));
    assert(wf_name("number"@));
    assert(wf_name("expiration-date"@));
    assert(wf_name("expiration-month"@));
    assert(wf_name("expiration-year"@));
    assert(wf_name("customer-id"@));
    assert(wf_name("token"@));
    assert(wf_name("billing-address"@));
}

proof fn lemma_wf_opt_billing(v: Option<Address>)
    ensures
        forall|i: int| 0 <= i < opt_billing_v(v).len() ==> wf_elem(
            #[trigger] opt_billing_v(v)[i],
        ),
{
    lemma_credit_card_tags_wf();
    match v {
        Some(b) => {
            lemma_address_wf(b, "billing-address"@);
            assert(opt_billing_v(v)[0] == address_elem(b, "billing-address"@));
        },
        None => {},
    }
}

/// An encoded card is a canonical element whenever its element name is a
/// valid name, so its serialized document parses back to exactly it.
pub proof fn lemma_credit_card_wf(c: CreditCard, name: Seq<char>)
    requires
        wf_name(name),
    ensures
        wf_elem(credit_card_elem(c, name)),
        canonical_doc(ser_elem(credit_card_elem(c, name))) == Some(credit_card_elem(c, name)),
{
    lemma_credit_card_tags_wf();
    reveal(credit_card_front);
    reveal(credit_card_back);
    lemma_wf_opt_leaf("cardholder-name"@, c.cardholder_name);
    lemma_wf_opt_leaf("cvv"@, c.cvv);
    lemma_wf_opt_leaf("number"@, c.number);
    lemma_wf_opt_leaf("expiration-date"@, c.expiration_date);
    lemma_wf_opt_leaf("expiration-month"@, c.expiration_month);
    lemma_wf_opt_leaf("expiration-year"@, c.expiration_year);
    lemma_wf_opt_leaf("customer-id"@, c.customer_id);
    lemma_wf_opt_leaf("token"@, c.token);
    lemma_wf_opt_billing(c.billing_address);
    lemma_wf_append(opt_leaf_v("cardholder-name"@, c.cardholder_name), opt_leaf_v("cvv"@, c.cvv));
    lemma_wf_append((opt_leaf_v("cardholder-name"@, c.cardholder_name) + opt_leaf_v("cvv"@, c.cvv)), opt_leaf_v("number"@, c.number));
    lemma_wf_append(((opt_leaf_v("cardholder-name"@, c.cardholder_name) + opt_leaf_v("cvv"@, c.cvv)) + opt_leaf_v("number"@, c.number)), opt_leaf_v("expiration-date"@, c.expiration_date));
    lemma_wf_append(opt_leaf_v("expiration-month"@, c.expiration_month), opt_leaf_v("expiration-year"@, c.expiration_year));
    lemma_wf_append((opt_leaf_v("expiration-month"@, c.expiration_month) + opt_leaf_v("expiration-year"@, c.expiration_year)), opt_leaf_v("customer-id"@, c.customer_id));
    lemma_wf_append(((opt_leaf_v("expiration-month"@, c.expiration_month) + opt_leaf_v("expiration-year"@, c.expiration_year)) + opt_leaf_v("customer-id"@, c.customer_id)), opt_leaf_v("token"@, c.token));
    lemma_wf_append((((opt_leaf_v("expiration-month"@, c.expiration_month) + opt_leaf_v("expiration-year"@, c.expiration_year)) + opt_leaf_v("customer-id"@, c.customer_id)) + opt_leaf_v("token"@, c.token)), opt_billing_v(c.billing_address));
    lemma_wf_append(credit_card_front(c), credit_card_back(c));
    assert(wf_elem(credit_card_elem(c, name)));
    lemma_canonical_of_ser(credit_card_elem(c, name));
}

impl CreditCard {
    /// Encodes this card as an element, under `name` or the default
    /// element name. The caller-chosen name is emitted verbatim and must
    /// be a valid element name.
    #[verifier::rlimit(100)]
    pub fn to_element(&self, name: Option<&str>) -> (e: Element)
        ensures
            e@ == credit_card_elem(*self, chosen_name(name, "credit-card"@)),
    {
        let mut e = match name {
            Some(n) => Element::node(n),
            None => Element::node("credit-card"),
        };
        e.push_opt_leaf("cardholder-name", &self.cardholder_name);
        e.push_opt_leaf("cvv", &self.cvv);
        e.push_opt_leaf("number", &self.number);
        e.push_opt_leaf("expiration-date", &self.expiration_date);
        proof {
            reveal(credit_card_front);
            assert(Seq::<ElemV>::empty() + opt_leaf_v("cardholder-name"@, self.cardholder_name)
                =~= opt_leaf_v("cardholder-name"@, self.cardholder_name));
            assert(e@.children =~= credit_card_front(*self));
        }
        e.push_opt_leaf("expiration-month", &self.expiration_month);
        e.push_opt_leaf("expiration-year", &self.expiration_year);
        e.push_opt_leaf("customer-id", &self.customer_id);
        e.push_opt_leaf("token", &self.token);
        match &self.billing_address {
            Some(b) => {
                e.push_child(b.to_element(Some("billing-address")));
            },
            None => {
            },
        }
        proof {
            reveal(credit_card_back);
            assert(e@.children =~= credit_card_front(*self) + credit_card_back(*self));
            assert(e@ =~= credit_card_elem(*self, chosen_name(name, "credit-card"@)));
        }
        e
    }

    /// The serialized markup document for this card.
    pub fn to_xml(&self, name: Option<&str>) -> (s: String)
        ensures
            s@ == ser_elem(credit_card_elem(*self, chosen_name(name, "credit-card"@))),
    {
        self.to_element(name).to_markup()
    }

    /// Decodes a card from an element: each declared field takes the text
    /// of its tag's child where present and stays absent otherwise, and a
    /// billing-address child decodes as a nested address.
    pub fn from_element(e: &Element) -> (c: CreditCard)
        ensures
            credit_card_matches(c, e@),
    {
        let billing_address = match e.find("billing-address") {
            Some(b) => Some(Address::from_element(b)),
            None => None,
        };
        CreditCard {
            cardholder_name: match e.find("cardholder-name") {
                Some(ch) => Some(ch.text.clone()),
                None => None,
            },
            cvv: match e.find("cvv") {
                Some(ch) => Some(ch.text.clone()),
                None => None,
            },
            number: match e.find("number") {
                Some(ch) => Some(ch.text.clone()),
                None => None,
            },
            expiration_date: match e.find("expiration-date") {
                Some(ch) => Some(ch.text.clone()),
                None => None,
            },
            expiration_month: match e.find("expiration-month") {
                Some(ch) => Some(ch.text.clone()),
                None => None,
            },
            expiration_year: match e.find("expiration-year") {
                Some(ch) => Some(ch.text.clone()),
                None => None,
            },
            customer_id: match e.find("customer-id") {
                Some(ch) => Some(ch.text.clone()),
                None => None,
            },
            token: match e.find("token") {
                Some(ch) => Some(ch.text.clone()),
                None => None,
            },
            billing_address,
        }
    }
}

} // verus!
