//! The address record and its codec: each declared field maps to a fixed
//! kebab-case tag; absent fields emit no element, and decoding reads each
//! declared field back optionally, so an encoded address decodes to
//! exactly the record it came from.

use vstd::prelude::*;

use crate::markup::{canonical_doc, child_text, chosen_name, find_in, leaf_v, lemma_canonical_of_ser,
    lemma_find_append, lemma_find_opt_leaf, lemma_wf_append, lemma_wf_opt_leaf, opt_leaf_v,
    opt_view, ser_elem, wf_elem, wf_name, Element, ElemV};

verus! {

broadcast use vstd::string::group_string_axioms;

/// A postal address; every field is optional.
#[derive(Debug, Default)]
pub struct Address {
    pub company: Option<String>,
    pub country_code_alpha2: Option<String>,
    pub country_code_alpha3: Option<String>,
    pub country_code_numeric: Option<String>,
    pub country_name: Option<String>,
    pub extended_address: Option<String>,
    pub first_name: Option<String>,
    pub last_name: Option<String>,
    pub locality: Option<String>,
    pub postal_code: Option<String>,
    pub region: Option<String>,
    pub street_address: Option<String>,
}

/// The first six children of an encoded address, in declaration order.
#[verifier::opaque]
pub open spec fn address_front(a: Address) -> Seq<ElemV> {
    opt_leaf_v("company"@, a.company) + opt_leaf_v("country-code-alpha2"@, a.country_code_alpha2) + opt_leaf_v("country-code-alpha3"@, a.country_code_alpha3) + opt_leaf_v("country-code-numeric"@, a.country_code_numeric) + opt_leaf_v("country-name"@, a.country_name) + opt_leaf_v("extended-address"@, a.extended_address)
}

/// The last six children of an encoded address, in declaration order.
#[verifier::opaque]
pub open spec fn address_back(a: Address) -> Seq<ElemV> {
    opt_leaf_v("first-name"@, a.first_name) + opt_leaf_v("last-name"@, a.last_name) + opt_leaf_v("locality"@, a.locality) + opt_leaf_v("postal-code"@, a.postal_code) + opt_leaf_v("region"@, a.region) + opt_leaf_v("street-address"@, a.street_address)
}

/// The children of an encoded address: one leaf per present field, in
/// declaration order.
pub open spec fn address_children(a: Address) -> Seq<ElemV> {
    address_front(a) + address_back(a)
}

/// The element an address is encoded as, under the given name.
pub open spec fn address_elem(a: Address, name: Seq<char>) -> ElemV {
    ElemV { tag: name, type_attr: None, text: Seq::empty(), children: address_children(a) }
}

/// Whether a record holds, field for field, exactly what the element
/// offers: each declared tag's child text where present, absence where
/// the element has no such child.
pub open spec fn address_matches(a: Address, e: ElemV) -> bool {
    &&& opt_view(a.company) == child_text(e, "company"@)
    &&& opt_view(a.country_code_alpha2) == child_text(e, "country-code-alpha2"@)
    &&& opt_view(a.country_code_alpha3) == child_text(e, "country-code-alpha3"@)
    &&& opt_view(a.country_code_numeric) == child_text(e, "country-code-numeric"@)
    &&& opt_view(a.country_name) == child_text(e, "country-name"@)
    &&& opt_view(a.extended_address) == child_text(e, "extended-address"@)
    &&& opt_view(a.first_name) == child_text(e, "first-name"@)
    &&& opt_view(a.last_name) == child_text(e, "last-name"@)
    &&& opt_view(a.locality) == child_text(e, "locality"@)
    &&& opt_view(a.postal_code) == child_text(e, "postal-code"@)
    &&& opt_view(a.region) == child_text(e, "region"@)
    &&& opt_view(a.street_address) == child_text(e, "street-address"@)
}

/// The tags named here are pairwise distinct.
proof fn lemma_address_tags_distinct()
    ensures
        "company"@ != "country-code-alpha2"@,
        "company"@ != "country-code-alpha3"@,
        "company"@ != "country-code-numeric"@,
        "company"@ != "country-name"@,
        "company"@ != "extended-address"@,
        "company"@ != "first-name"@,
        "company"@ != "last-name"@,
        "company"@ != "locality"@,
        "company"@ != "postal-code"@,
        "company"@ != "region"@,
        "company"@ != "street-address"@,
        "country-code-alpha2"@ != "country-code-alpha3"@,
        "country-code-alpha2"@ != "country-code-numeric"@,
        "country-code-alpha2"@ != "country-name"@,
        "country-code-alpha2"@ != "extended-address"@,
        "country-code-alpha2"@ != "first-name"@,
        "country-code-alpha2"@ != "last-name"@,
        "country-code-alpha2"@ != "locality"@,
        "country-code-alpha2"@ != "postal-code"@,
        "country-code-alpha2"@ != "region"@,
        "country-code-alpha2"@ != "street-address"@,
        "country-code-alpha3"@ != "country-code-numeric"@,
        "country-code-alpha3"@ != "country-name"@,
        "country-code-alpha3"@ != "extended-address"@,
        "country-code-alpha3"@ != "first-name"@,
        "country-code-alpha3"@ != "last-name"@,
        "country-code-alpha3"@ != "locality"@,
        "country-code-alpha3"@ != "postal-code"@,
        "country-code-alpha3"@ != "region"@,
        "country-code-alpha3"@ != "street-address"@,
        "country-code-numeric"@ != "country-name"@,
        "country-code-numeric"@ != "extended-address"@,
        "country-code-numeric"@ != "first-name"@,
        "country-code-numeric"@ != "last-name"@,
        "country-code-numeric"@ != "locality"@,
        "country-code-numeric"@ != "postal-code"@,
        "country-code-numeric"@ != "region"@,
        "country-code-numeric"@ != "street-address"@,
        "country-name"@ != "extended-address"@,
        "country-name"@ != "first-name"@,
        "country-name"@ != "last-name"@,
        "country-name"@ != "locality"@,
        "country-name"@ != "postal-code"@,
        "country-name"@ != "region"@,
        "country-name"@ != "street-address"@,
        "extended-address"@ != "first-name"@,
        "extended-address"@ != "last-name"@,
        "extended-address"@ != "locality"@,
        "extended-address"@ != "postal-code"@,
        "extended-address"@ != "region"@,
        "extended-address"@ != "street-address"@,
        "first-name"@ != "last-name"@,
        "first-name"@ != "locality"@,
        "first-name"@ != "postal-code"@,
        "first-name"@ != "region"@,
        "first-name"@ != "street-address"@,
        "last-name"@ != "locality"@,
        "last-name"@ != "postal-code"@,
        "last-name"@ != "region"@,
        "last-name"@ != "street-address"@,
        "locality"@ != "postal-code"@,
        "locality"@ != "region"@,
        "locality"@ != "street-address"@,
        "postal-code"@ != "region"@,
        "postal-code"@ != "street-address"@,
        "region"@ != "street-address"@,
{
    reveal_strlit("company");
    reveal_strlit("country-code-alpha2");
    reveal_strlit("country-code-alpha3");
    reveal_strlit("country-code-numeric");
    reveal_strlit("country-name");
    reveal_strlit("extended-address");
    reveal_strlit("first-name");
    reveal_strlit("last-name");
    reveal_strlit("locality");
    reveal_strlit("postal-code");
    reveal_strlit("region");
    reveal_strlit("street-address");
    assert("company"@.len() == 7);
    assert("country-code-alpha2"@.len() == 19);
    assert("country-code-alpha3"@.len() == 19);
    assert("country-code-numeric"@.len() == 20);
    assert("country-name"@.len() == 12);
    assert("extended-address"@.len() == 16);
    assert("first-name"@.len() == 10);
    assert("last-name"@.len() == 9);
    assert("locality"@.len() == 8);
    assert("postal-code"@.len() == 11);
    assert("region"@.len() == 6);
    assert("street-address"@.len() == 14);
    assert("country-code-alpha2"@[18] == '2');
    assert("country-code-alpha3"@[18] == '3');
    assert("company"@ != "country-code-alpha2"@);
    assert("company"@ != "country-code-alpha3"@);
    assert("company"@ != "country-code-numeric"@);
    assert("company"@ != "country-name"@);
    assert("company"@ != "extended-address"@);
    assert("company"@ != "first-name"@);
    assert("company"@ != "last-name"@);
    assert("company"@ != "locality"@);
    assert("company"@ != "postal-code"@);
    assert("company"@ != "region"@);
    assert("company"@ != "street-address"@);
    assert("country-code-alpha2"@ != "country-code-alpha3"@);
    assert("country-code-alpha2"@ != "country-code-numeric"@);
    assert("country-code-alpha2"@ != "country-name"@);
    assert("country-code-alpha2"@ != "extended-address"@);
    assert("country-code-alpha2"@ != "first-name"@);
    assert("country-code-alpha2"@ != "last-name"@);
    assert("country-code-alpha2"@ != "locality"@);
    assert("country-code-alpha2"@ != "postal-code"@);
    assert("country-code-alpha2"@ != "region"@);
    assert("country-code-alpha2"@ != "street-address"@);
    assert("country-code-alpha3"@ != "country-code-numeric"@);
    assert("country-code-alpha3"@ != "country-name"@);
    assert("country-code-alpha3"@ != "extended-address"@);
    assert("country-code-alpha3"@ != "first-name"@);
    assert("country-code-alpha3"@ != "last-name"@);
    assert("country-code-alpha3"@ != "locality"@);
    assert("country-code-alpha3"@ != "postal-code"@);
    assert("country-code-alpha3"@ != "region"@);
    assert("country-code-alpha3"@ != "street-address"@);
    assert("country-code-numeric"@ != "country-name"@);
    assert("country-code-numeric"@ != "extended-address"@);
    assert("country-code-numeric"@ != "first-name"@);
    assert("country-code-numeric"@ != "last-name"@);
    assert("country-code-numeric"@ != "locality"@);
    assert("country-code-numeric"@ != "postal-code"@);
    assert("country-code-numeric"@ != "region"@);
    assert("country-code-numeric"@ != "street-address"@);
    assert("country-name"@ != "extended-address"@);
    assert("country-name"@ != "first-name"@);
    assert("country-name"@ != "last-name"@);
    assert("country-name"@ != "locality"@);
    assert("country-name"@ != "postal-code"@);
    assert("country-name"@ != "region"@);
    assert("country-name"@ != "street-address"@);
    assert("extended-address"@ != "first-name"@);
    assert("extended-address"@ != "last-name"@);
    assert("extended-address"@ != "locality"@);
    assert("extended-address"@ != "postal-code"@);
    assert("extended-address"@ != "region"@);
    assert("extended-address"@ != "street-address"@);
    assert("first-name"@ != "last-name"@);
    assert("first-name"@ != "locality"@);
    assert("first-name"@ != "postal-code"@);
    assert("first-name"@ != "region"@);
    assert("first-name"@ != "street-address"@);
    assert("last-name"@ != "locality"@);
    assert("last-name"@ != "postal-code"@);
    assert("last-name"@ != "region"@);
    assert("last-name"@ != "street-address"@);
    assert("locality"@ != "postal-code"@);
    assert("locality"@ != "region"@);
    assert("locality"@ != "street-address"@);
    assert("postal-code"@ != "region"@);
    assert("postal-code"@ != "street-address"@);
    assert("region"@ != "street-address"@);
}

proof fn lemma_address_front_company(a: Address)
    ensures
        find_in(address_front(a), "company"@) == (match a.company { Some(s) => Some(leaf_v("company"@, s@)), None => None }),
{
    reveal(address_front);
    lemma_address_tags_distinct();
    assert(find_in(opt_leaf_v("company"@, a.company), "company"@) == (match a.company { Some(s) => Some(leaf_v("company"@, s@)), None => None })) by {
        lemma_find_opt_leaf("company"@, a.company, "company"@);
    }
    assert(find_in((opt_leaf_v("company"@, a.company) + opt_leaf_v("country-code-alpha2"@, a.country_code_alpha2)), "company"@) == (match a.company { Some(s) => Some(leaf_v("company"@, s@)), None => None })) by {
        lemma_find_opt_leaf("country-code-alpha2"@, a.country_code_alpha2, "company"@);
        lemma_find_append(opt_leaf_v("company"@, a.company), opt_leaf_v("country-code-alpha2"@, a.country_code_alpha2), "company"@);
    }
    assert(find_in(((opt_leaf_v("company"@, a.company) + opt_leaf_v("country-code-alpha2"@, a.country_code_alpha2)) + opt_leaf_v("country-code-alpha3"@, a.country_code_alpha3)), "company"@) == (match a.company { Some(s) => Some(leaf_v("company"@, s@)), None => None })) by {
        lemma_find_opt_leaf("country-code-alpha3"@, a.country_code_alpha3, "company"@);
        lemma_find_append((opt_leaf_v("company"@, a.company) + opt_leaf_v("country-code-alpha2"@, a.country_code_alpha2)), opt_leaf_v("country-code-alpha3"@, a.country_code_alpha3), "company"@);
    }
    assert(find_in((((opt_leaf_v("company"@, a.company) + opt_leaf_v("country-code-alpha2"@, a.country_code_alpha2)) + opt_leaf_v("country-code-alpha3"@, a.country_code_alpha3)) + opt_leaf_v("country-code-numeric"@, a.country_code_numeric)), "company"@) == (match a.company { Some(s) => Some(leaf_v("company"@, s@)), None => None })) by {
        lemma_find_opt_leaf("country-code-numeric"@, a.country_code_numeric, "company"@);
        lemma_find_append(((opt_leaf_v("company"@, a.company) + opt_leaf_v("country-code-alpha2"@, a.country_code_alpha2)) + opt_leaf_v("country-code-alpha3"@, a.country_code_alpha3)), opt_leaf_v("country-code-numeric"@, a.country_code_numeric), "company"@);
    }
    assert(find_in(((((opt_leaf_v("company"@, a.company) + opt_leaf_v("country-code-alpha2"@, a.country_code_alpha2)) + opt_leaf_v("country-code-alpha3"@, a.country_code_alpha3)) + opt_leaf_v("country-code-numeric"@, a.country_code_numeric)) + opt_leaf_v("country-name"@, a.country_name)), "company"@) == (match a.company { Some(s) => Some(leaf_v("company"@, s@)), None => None })) by {
        lemma_find_opt_leaf("country-name"@, a.country_name, "company"@);
        lemma_find_append((((opt_leaf_v("company"@, a.company) + opt_leaf_v("country-code-alpha2"@, a.country_code_alpha2)) + opt_leaf_v("country-code-alpha3"@, a.country_code_alpha3)) + opt_leaf_v("country-code-numeric"@, a.country_code_numeric)), opt_leaf_v("country-name"@, a.country_name), "company"@);
    }
    assert(find_in((((((opt_leaf_v("company"@, a.company) + opt_leaf_v("country-code-alpha2"@, a.country_code_alpha2)) + opt_leaf_v("country-code-alpha3"@, a.country_code_alpha3)) + opt_leaf_v("country-code-numeric"@, a.country_code_numeric)) + opt_leaf_v("country-name"@, a.country_name)) + opt_leaf_v("extended-address"@, a.extended_address)), "company"@) == (match a.company { Some(s) => Some(leaf_v("company"@, s@)), None => None })) by {
        lemma_find_opt_leaf("extended-address"@, a.extended_address, "company"@);
        lemma_find_append(((((opt_leaf_v("company"@, a.company) + opt_leaf_v("country-code-alpha2"@, a.country_code_alpha2)) + opt_leaf_v("country-code-alpha3"@, a.country_code_alpha3)) + opt_leaf_v("country-code-numeric"@, a.country_code_numeric)) + opt_leaf_v("country-name"@, a.country_name)), opt_leaf_v("extended-address"@, a.extended_address), "company"@);
    }
}

proof fn lemma_address_front_country_code_alpha2(a: Address)
    ensures
        find_in(address_front(a), "country-code-alpha2"@) == (match a.country_code_alpha2 { Some(s) => Some(leaf_v("country-code-alpha2"@, s@)), None => None }),
{
    reveal(address_front);
    lemma_address_tags_distinct();
    assert(find_in(opt_leaf_v("company"@, a.company), "country-code-alpha2"@) == None::<ElemV>) by {
        lemma_find_opt_leaf("company"@, a.company, "country-code-alpha2"@);
    }
    assert(find_in((opt_leaf_v("company"@, a.company) + opt_leaf_v("country-code-alpha2"@, a.country_code_alpha2)), "country-code-alpha2"@) == (match a.country_code_alpha2 { Some(s) => Some(leaf_v("country-code-alpha2"@, s@)), None => None })) by {
        lemma_find_opt_leaf("country-code-alpha2"@, a.country_code_alpha2, "country-code-alpha2"@);
        lemma_find_append(opt_leaf_v("company"@, a.company), opt_leaf_v("country-code-alpha2"@, a.country_code_alpha2), "country-code-alpha2"@);
    }
    assert(find_in(((opt_leaf_v("company"@, a.company) + opt_leaf_v("country-code-alpha2"@, a.country_code_alpha2)) + opt_leaf_v("country-code-alpha3"@, a.country_code_alpha3)), "country-code-alpha2"@) == (match a.country_code_alpha2 { Some(s) => Some(leaf_v("country-code-alpha2"@, s@)), None => None })) by {
        lemma_find_opt_leaf("country-code-alpha3"@, a.country_code_alpha3, "country-code-alpha2"@);
        lemma_find_append((opt_leaf_v("company"@, a.company) + opt_leaf_v("country-code-alpha2"@, a.country_code_alpha2)), opt_leaf_v("country-code-alpha3"@, a.country_code_alpha3), "country-code-alpha2"@);
    }
    assert(find_in((((opt_leaf_v("company"@, a.company) + opt_leaf_v("country-code-alpha2"@, a.country_code_alpha2)) + opt_leaf_v("country-code-alpha3"@, a.country_code_alpha3)) + opt_leaf_v("country-code-numeric"@, a.country_code_numeric)), "country-code-alpha2"@) == (match a.country_code_alpha2 { Some(s) => Some(leaf_v("country-code-alpha2"@, s@)), None => None })) by {
        lemma_find_opt_leaf("country-code-numeric"@, a.country_code_numeric, "country-code-alpha2"@);
        lemma_find_append(((opt_leaf_v("company"@, a.company) + opt_leaf_v("country-code-alpha2"@, a.country_code_alpha2)) + opt_leaf_v("country-code-alpha3"@, a.country_code_alpha3)), opt_leaf_v("country-code-numeric"@, a.country_code_numeric), "country-code-alpha2"@);
    }
    assert(find_in(((((opt_leaf_v("company"@, a.company) + opt_leaf_v("country-code-alpha2"@, a.country_code_alpha2)) + opt_leaf_v("country-code-alpha3"@, a.country_code_alpha3)) + opt_leaf_v("country-code-numeric"@, a.country_code_numeric)) + opt_leaf_v("country-name"@, a.country_name)), "country-code-alpha2"@) == (match a.country_code_alpha2 { Some(s) => Some(leaf_v("country-code-alpha2"@, s@)), None => None })) by {
        lemma_find_opt_leaf("country-name"@, a.country_name, "country-code-alpha2"@);
        lemma_find_append((((opt_leaf_v("company"@, a.company) + opt_leaf_v("country-code-alpha2"@, a.country_code_alpha2)) + opt_leaf_v("country-code-alpha3"@, a.country_code_alpha3)) + opt_leaf_v("country-code-numeric"@, a.country_code_numeric)), opt_leaf_v("country-name"@, a.country_name), "country-code-alpha2"@);
    }
    assert(find_in((((((opt_leaf_v("company"@, a.company) + opt_leaf_v("country-code-alpha2"@, a.country_code_alpha2)) + opt_leaf_v("country-code-alpha3"@, a.country_code_alpha3)) + opt_leaf_v("country-code-numeric"@, a.country_code_numeric)) + opt_leaf_v("country-name"@, a.country_name)) + opt_leaf_v("extended-address"@, a.extended_address)), "country-code-alpha2"@) == (match a.country_code_alpha2 { Some(s) => Some(leaf_v("country-code-alpha2"@, s@)), None => None })) by {
        lemma_find_opt_leaf("extended-address"@, a.extended_address, "country-code-alpha2"@);
        lemma_find_append(((((opt_leaf_v("company"@, a.company) + opt_leaf_v("country-code-alpha2"@, a.country_code_alpha2)) + opt_leaf_v("country-code-alpha3"@, a.country_code_alpha3)) + opt_leaf_v("country-code-numeric"@, a.country_code_numeric)) + opt_leaf_v("country-name"@, a.country_name)), opt_leaf_v("extended-address"@, a.extended_address), "country-code-alpha2"@);
    }
}

proof fn lemma_address_front_country_code_alpha3(a: Address)
    ensures
        find_in(address_front(a), "country-code-alpha3"@) == (match a.country_code_alpha3 { Some(s) => Some(leaf_v("country-code-alpha3"@, s@)), None => None }),
{
    reveal(address_front);
    lemma_address_tags_distinct();
    assert(find_in(opt_leaf_v("company"@, a.company), "country-code-alpha3"@) == None::<ElemV>) by {
        lemma_find_opt_leaf("company"@, a.company, "country-code-alpha3"@);
    }
    assert(find_in((opt_leaf_v("company"@, a.company) + opt_leaf_v("country-code-alpha2"@, a.country_code_alpha2)), "country-code-alpha3"@) == None::<ElemV>) by {
        lemma_find_opt_leaf("country-code-alpha2"@, a.country_code_alpha2, "country-code-alpha3"@);
        lemma_find_append(opt_leaf_v("company"@, a.company), opt_leaf_v("country-code-alpha2"@, a.country_code_alpha2), "country-code-alpha3"@);
    }
    assert(find_in(((opt_leaf_v("company"@, a.company) + opt_leaf_v("country-code-alpha2"@, a.country_code_alpha2)) + opt_leaf_v("country-code-alpha3"@, a.country_code_alpha3)), "country-code-alpha3"@) == (match a.country_code_alpha3 { Some(s) => Some(leaf_v("country-code-alpha3"@, s@)), None => None })) by {
        lemma_find_opt_leaf("country-code-alpha3"@, a.country_code_alpha3, "country-code-alpha3"@);
        lemma_find_append((opt_leaf_v("company"@, a.company) + opt_leaf_v("country-code-alpha2"@, a.country_code_alpha2)), opt_leaf_v("country-code-alpha3"@, a.country_code_alpha3), "country-code-alpha3"@);
    }
    assert(find_in((((opt_leaf_v("company"@, a.company) + opt_leaf_v("country-code-alpha2"@, a.country_code_alpha2)) + opt_leaf_v("country-code-alpha3"@, a.country_code_alpha3)) + opt_leaf_v("country-code-numeric"@, a.country_code_numeric)), "country-code-alpha3"@) == (match a.country_code_alpha3 { Some(s) => Some(leaf_v("country-code-alpha3"@, s@)), None => None })) by {
        lemma_find_opt_leaf("country-code-numeric"@, a.country_code_numeric, "country-code-alpha3"@);
        lemma_find_append(((opt_leaf_v("company"@, a.company) + opt_leaf_v("country-code-alpha2"@, a.country_code_alpha2)) + opt_leaf_v("country-code-alpha3"@, a.country_code_alpha3)), opt_leaf_v("country-code-numeric"@, a.country_code_numeric), "country-code-alpha3"@);
    }
    assert(find_in(((((opt_leaf_v("company"@, a.company) + opt_leaf_v("country-code-alpha2"@, a.country_code_alpha2)) + opt_leaf_v("country-code-alpha3"@, a.country_code_alpha3)) + opt_leaf_v("country-code-numeric"@, a.country_code_numeric)) + opt_leaf_v("country-name"@, a.country_name)), "country-code-alpha3"@) == (match a.country_code_alpha3 { Some(s) => Some(leaf_v("country-code-alpha3"@, s@)), None => None })) by {
        lemma_find_opt_leaf("country-name"@, a.country_name, "country-code-alpha3"@);
        lemma_find_append((((opt_leaf_v("company"@, a.company) + opt_leaf_v("country-code-alpha2"@, a.country_code_alpha2)) + opt_leaf_v("country-code-alpha3"@, a.country_code_alpha3)) + opt_leaf_v("country-code-numeric"@, a.country_code_numeric)), opt_leaf_v("country-name"@, a.country_name), "country-code-alpha3"@);
    }
    assert(find_in((((((opt_leaf_v("company"@, a.company) + opt_leaf_v("country-code-alpha2"@, a.country_code_alpha2)) + opt_leaf_v("country-code-alpha3"@, a.country_code_alpha3)) + opt_leaf_v("country-code-numeric"@, a.country_code_numeric)) + opt_leaf_v("country-name"@, a.country_name)) + opt_leaf_v("extended-address"@, a.extended_address)), "country-code-alpha3"@) == (match a.country_code_alpha3 { Some(s) => Some(leaf_v("country-code-alpha3"@, s@)), None => None })) by {
        lemma_find_opt_leaf("extended-address"@, a.extended_address, "country-code-alpha3"@);
        lemma_find_append(((((opt_leaf_v("company"@, a.company) + opt_leaf_v("country-code-alpha2"@, a.country_code_alpha2)) + opt_leaf_v("country-code-alpha3"@, a.country_code_alpha3)) + opt_leaf_v("country-code-numeric"@, a.country_code_numeric)) + opt_leaf_v("country-name"@, a.country_name)), opt_leaf_v("extended-address"@, a.extended_address), "country-code-alpha3"@);
    }
}

proof fn lemma_address_front_country_code_numeric(a: Address)
    ensures
        find_in(address_front(a), "country-code-numeric"@) == (match a.country_code_numeric { Some(s) => Some(leaf_v("country-code-numeric"@, s@)), None => None }),
{
    reveal(address_front);
    lemma_address_tags_distinct();
    assert(find_in(opt_leaf_v("company"@, a.company), "country-code-numeric"@) == None::<ElemV>) by {
        lemma_find_opt_leaf("company"@, a.company, "country-code-numeric"@);
    }
    assert(find_in((opt_leaf_v("company"@, a.company) + opt_leaf_v("country-code-alpha2"@, a.country_code_alpha2)), "country-code-numeric"@) == None::<ElemV>) by {
        lemma_find_opt_leaf("country-code-alpha2"@, a.country_code_alpha2, "country-code-numeric"@);
        lemma_find_append(opt_leaf_v("company"@, a.company), opt_leaf_v("country-code-alpha2"@, a.country_code_alpha2), "country-code-numeric"@);
    }
    assert(find_in(((opt_leaf_v("company"@, a.company) + opt_leaf_v("country-code-alpha2"@, a.country_code_alpha2)) + opt_leaf_v("country-code-alpha3"@, a.country_code_alpha3)), "country-code-numeric"@) == None::<ElemV>) by {
        lemma_find_opt_leaf("country-code-alpha3"@, a.country_code_alpha3, "country-code-numeric"@);
        lemma_find_append((opt_leaf_v("company"@, a.company) + opt_leaf_v("country-code-alpha2"@, a.country_code_alpha2)), opt_leaf_v("country-code-alpha3"@, a.country_code_alpha3), "country-code-numeric"@);
    }
    assert(find_in((((opt_leaf_v("company"@, a.company) + opt_leaf_v("country-code-alpha2"@, a.country_code_alpha2)) + opt_leaf_v("country-code-alpha3"@, a.country_code_alpha3)) + opt_leaf_v("country-code-numeric"@, a.country_code_numeric)), "country-code-numeric"@) == (match a.country_code_numeric { Some(s) => Some(leaf_v("country-code-numeric"@, s@)), None => None })) by {
        lemma_find_opt_leaf("country-code-numeric"@, a.country_code_numeric, "country-code-numeric"@);
        lemma_find_append(((opt_leaf_v("company"@, a.company) + opt_leaf_v("country-code-alpha2"@, a.country_code_alpha2)) + opt_leaf_v("country-code-alpha3"@, a.country_code_alpha3)), opt_leaf_v("country-code-numeric"@, a.country_code_numeric), "country-code-numeric"@);
    }
    assert(find_in(((((opt_leaf_v("company"@, a.company) + opt_leaf_v("country-code-alpha2"@, a.country_code_alpha2)) + opt_leaf_v("country-code-alpha3"@, a.country_code_alpha3)) + opt_leaf_v("country-code-numeric"@, a.country_code_numeric)) + opt_leaf_v("country-name"@, a.country_name)), "country-code-numeric"@) == (match a.country_code_numeric { Some(s) => Some(leaf_v("country-code-numeric"@, s@)), None => None })) by {
        lemma_find_opt_leaf("country-name"@, a.country_name, "country-code-numeric"@);
        lemma_find_append((((opt_leaf_v("company"@, a.company) + opt_leaf_v("country-code-alpha2"@, a.country_code_alpha2)) + opt_leaf_v("country-code-alpha3"@, a.country_code_alpha3)) + opt_leaf_v("country-code-numeric"@, a.country_code_numeric)), opt_leaf_v("country-name"@, a.country_name), "country-code-numeric"@);
    }
    assert(find_in((((((opt_leaf_v("company"@, a.company) + opt_leaf_v("country-code-alpha2"@, a.country_code_alpha2)) + opt_leaf_v("country-code-alpha3"@, a.country_code_alpha3)) + opt_leaf_v("country-code-numeric"@, a.country_code_numeric)) + opt_leaf_v("country-name"@, a.country_name)) + opt_leaf_v("extended-address"@, a.extended_address)), "country-code-numeric"@) == (match a.country_code_numeric { Some(s) => Some(leaf_v("country-code-numeric"@, s@)), None => None })) by {
        lemma_find_opt_leaf("extended-address"@, a.extended_address, "country-code-numeric"@);
        lemma_find_append(((((opt_leaf_v("company"@, a.company) + opt_leaf_v("country-code-alpha2"@, a.country_code_alpha2)) + opt_leaf_v("country-code-alpha3"@, a.country_code_alpha3)) + opt_leaf_v("country-code-numeric"@, a.country_code_numeric)) + opt_leaf_v("country-name"@, a.country_name)), opt_leaf_v("extended-address"@, a.extended_address), "country-code-numeric"@);
    }
}

proof fn lemma_address_front_country_name(a: Address)
    ensures
        find_in(address_front(a), "country-name"@) == (match a.country_name { Some(s) => Some(leaf_v("country-name"@, s@)), None => None }),
{
    reveal(address_front);
    lemma_address_tags_distinct();
    assert(find_in(opt_leaf_v("company"@, a.company), "country-name"@) == None::<ElemV>) by {
        lemma_find_opt_leaf("company"@, a.company, "country-name"@);
    }
    assert(find_in((opt_leaf_v("company"@, a.company) + opt_leaf_v("country-code-alpha2"@, a.country_code_alpha2)), "country-name"@) == None::<ElemV>) by {
        lemma_find_opt_leaf("country-code-alpha2"@, a.country_code_alpha2, "country-name"@);
        lemma_find_append(opt_leaf_v("company"@, a.company), opt_leaf_v("country-code-alpha2"@, a.country_code_alpha2), "country-name"@);
    }
    assert(find_in(((opt_leaf_v("company"@, a.company) + opt_leaf_v("country-code-alpha2"@, a.country_code_alpha2)) + opt_leaf_v("country-code-alpha3"@, a.country_code_alpha3)), "country-name"@) == None::<ElemV>) by {
        lemma_find_opt_leaf("country-code-alpha3"@, a.country_code_alpha3, "country-name"@);
        lemma_find_append((opt_leaf_v("company"@, a.company) + opt_leaf_v("country-code-alpha2"@, a.country_code_alpha2)), opt_leaf_v("country-code-alpha3"@, a.country_code_alpha3), "country-name"@);
    }
    assert(find_in((((opt_leaf_v("company"@, a.company) + opt_leaf_v("country-code-alpha2"@, a.country_code_alpha2)) + opt_leaf_v("country-code-alpha3"@, a.country_code_alpha3)) + opt_leaf_v("country-code-numeric"@, a.country_code_numeric)), "country-name"@) == None::<ElemV>) by {
        lemma_find_opt_leaf("country-code-numeric"@, a.country_code_numeric, "country-name"@);
        lemma_find_append(((opt_leaf_v("company"@, a.company) + opt_leaf_v("country-code-alpha2"@, a.country_code_alpha2)) + opt_leaf_v("country-code-alpha3"@, a.country_code_alpha3)), opt_leaf_v("country-code-numeric"@, a.country_code_numeric), "country-name"@);
    }
    assert(find_in(((((opt_leaf_v("company"@, a.company) + opt_leaf_v("country-code-alpha2"@, a.country_code_alpha2)) + opt_leaf_v("country-code-alpha3"@, a.country_code_alpha3)) + opt_leaf_v("country-code-numeric"@, a.country_code_numeric)) + opt_leaf_v("country-name"@, a.country_name)), "country-name"@) == (match a.country_name { Some(s) => Some(leaf_v("country-name"@, s@)), None => None })) by {
        lemma_find_opt_leaf("country-name"@, a.country_name, "country-name"@);
        lemma_find_append((((opt_leaf_v("company"@, a.company) + opt_leaf_v("country-code-alpha2"@, a.country_code_alpha2)) + opt_leaf_v("country-code-alpha3"@, a.country_code_alpha3)) + opt_leaf_v("country-code-numeric"@, a.country_code_numeric)), opt_leaf_v("country-name"@, a.country_name), "country-name"@);
    }
    assert(find_in((((((opt_leaf_v("company"@, a.company) + opt_leaf_v("country-code-alpha2"@, a.country_code_alpha2)) + opt_leaf_v("country-code-alpha3"@, a.country_code_alpha3)) + opt_leaf_v("country-code-numeric"@, a.country_code_numeric)) + opt_leaf_v("country-name"@, a.country_name)) + opt_leaf_v("extended-address"@, a.extended_address)), "country-name"@) == (match a.country_name { Some(s) => Some(leaf_v("country-name"@, s@)), None => None })) by {
        lemma_find_opt_leaf("extended-address"@, a.extended_address, "country-name"@);
        lemma_find_append(((((opt_leaf_v("company"@, a.company) + opt_leaf_v("country-code-alpha2"@, a.country_code_alpha2)) + opt_leaf_v("country-code-alpha3"@, a.country_code_alpha3)) + opt_leaf_v("country-code-numeric"@, a.country_code_numeric)) + opt_leaf_v("country-name"@, a.country_name)), opt_leaf_v("extended-address"@, a.extended_address), "country-name"@);
    }
}

proof fn lemma_address_front_extended_address(a: Address)
    ensures
        find_in(address_front(a), "extended-address"@) == (match a.extended_address { Some(s) => Some(leaf_v("extended-address"@, s@)), None => None }),
{
    reveal(address_front);
    lemma_address_tags_distinct();
    assert(find_in(opt_leaf_v("company"@, a.company), "extended-address"@) == None::<ElemV>) by {
        lemma_find_opt_leaf("company"@, a.company, "extended-address"@);
    }
    assert(find_in((opt_leaf_v("company"@, a.company) + opt_leaf_v("country-code-alpha2"@, a.country_code_alpha2)), "extended-address"@) == None::<ElemV>) by {
        lemma_find_opt_leaf("country-code-alpha2"@, a.country_code_alpha2, "extended-address"@);
        lemma_find_append(opt_leaf_v("company"@, a.company), opt_leaf_v("country-code-alpha2"@, a.country_code_alpha2), "extended-address"@);
    }
    assert(find_in(((opt_leaf_v("company"@, a.company) + opt_leaf_v("country-code-alpha2"@, a.country_code_alpha2)) + opt_leaf_v("country-code-alpha3"@, a.country_code_alpha3)), "extended-address"@) == None::<ElemV>) by {
        lemma_find_opt_leaf("country-code-alpha3"@, a.country_code_alpha3, "extended-address"@);
        lemma_find_append((opt_leaf_v("company"@, a.company) + opt_leaf_v("country-code-alpha2"@, a.country_code_alpha2)), opt_leaf_v("country-code-alpha3"@, a.country_code_alpha3), "extended-address"@);
    }
    assert(find_in((((opt_leaf_v("company"@, a.company) + opt_leaf_v("country-code-alpha2"@, a.country_code_alpha2)) + opt_leaf_v("country-code-alpha3"@, a.country_code_alpha3)) + opt_leaf_v("country-code-numeric"@, a.country_code_numeric)), "extended-address"@) == None::<ElemV>) by {
        lemma_find_opt_leaf("country-code-numeric"@, a.country_code_numeric, "extended-address"@);
        lemma_find_append(((opt_leaf_v("company"@, a.company) + opt_leaf_v("country-code-alpha2"@, a.country_code_alpha2)) + opt_leaf_v("country-code-alpha3"@, a.country_code_alpha3)), opt_leaf_v("country-code-numeric"@, a.country_code_numeric), "extended-address"@);
    }
    assert(find_in(((((opt_leaf_v("company"@, a.company) + opt_leaf_v("country-code-alpha2"@, a.country_code_alpha2)) + opt_leaf_v("country-code-alpha3"@, a.country_code_alpha3)) + opt_leaf_v("country-code-numeric"@, a.country_code_numeric)) + opt_leaf_v("country-name"@, a.country_name)), "extended-address"@) == None::<ElemV>) by {
        lemma_find_opt_leaf("country-name"@, a.country_name, "extended-address"@);
        lemma_find_append((((opt_leaf_v("company"@, a.company) + opt_leaf_v("country-code-alpha2"@, a.country_code_alpha2)) + opt_leaf_v("country-code-alpha3"@, a.country_code_alpha3)) + opt_leaf_v("country-code-numeric"@, a.country_code_numeric)), opt_leaf_v("country-name"@, a.country_name), "extended-address"@);
    }
    assert(find_in((((((opt_leaf_v("company"@, a.company) + opt_leaf_v("country-code-alpha2"@, a.country_code_alpha2)) + opt_leaf_v("country-code-alpha3"@, a.country_code_alpha3)) + opt_leaf_v("country-code-numeric"@, a.country_code_numeric)) + opt_leaf_v("country-name"@, a.country_name)) + opt_leaf_v("extended-address"@, a.extended_address)), "extended-address"@) == (match a.extended_address { Some(s) => Some(leaf_v("extended-address"@, s@)), None => None })) by {
        lemma_find_opt_leaf("extended-address"@, a.extended_address, "extended-address"@);
        lemma_find_append(((((opt_leaf_v("company"@, a.company) + opt_leaf_v("country-code-alpha2"@, a.country_code_alpha2)) + opt_leaf_v("country-code-alpha3"@, a.country_code_alpha3)) + opt_leaf_v("country-code-numeric"@, a.country_code_numeric)) + opt_leaf_v("country-name"@, a.country_name)), opt_leaf_v("extended-address"@, a.extended_address), "extended-address"@);
    }
}

proof fn lemma_address_front_first_name(a: Address)
    ensures
        find_in(address_front(a), "first-name"@) == None::<ElemV>,
{
    reveal(address_front);
    lemma_address_tags_distinct();
    assert(find_in(opt_leaf_v("company"@, a.company), "first-name"@) == None::<ElemV>) by {
        lemma_find_opt_leaf("company"@, a.company, "first-name"@);
    }
    assert(find_in((opt_leaf_v("company"@, a.company) + opt_leaf_v("country-code-alpha2"@, a.country_code_alpha2)), "first-name"@) == None::<ElemV>) by {
        lemma_find_opt_leaf("country-code-alpha2"@, a.country_code_alpha2, "first-name"@);
        lemma_find_append(opt_leaf_v("company"@, a.company), opt_leaf_v("country-code-alpha2"@, a.country_code_alpha2), "first-name"@);
    }
    assert(find_in(((opt_leaf_v("company"@, a.company) + opt_leaf_v("country-code-alpha2"@, a.country_code_alpha2)) + opt_leaf_v("country-code-alpha3"@, a.country_code_alpha3)), "first-name"@) == None::<ElemV>) by {
        lemma_find_opt_leaf("country-code-alpha3"@, a.country_code_alpha3, "first-name"@);
        lemma_find_append((opt_leaf_v("company"@, a.company) + opt_leaf_v("country-code-alpha2"@, a.country_code_alpha2)), opt_leaf_v("country-code-alpha3"@, a.country_code_alpha3), "first-name"@);
    }
    assert(find_in((((opt_leaf_v("company"@, a.company) + opt_leaf_v("country-code-alpha2"@, a.country_code_alpha2)) + opt_leaf_v("country-code-alpha3"@, a.country_code_alpha3)) + opt_leaf_v("country-code-numeric"@, a.country_code_numeric)), "first-name"@) == None::<ElemV>) by {
        lemma_find_opt_leaf("country-code-numeric"@, a.country_code_numeric, "first-name"@);
        lemma_find_append(((opt_leaf_v("company"@, a.company) + opt_leaf_v("country-code-alpha2"@, a.country_code_alpha2)) + opt_leaf_v("country-code-alpha3"@, a.country_code_alpha3)), opt_leaf_v("country-code-numeric"@, a.country_code_numeric), "first-name"@);
    }
    assert(find_in(((((opt_leaf_v("company"@, a.company) + opt_leaf_v("country-code-alpha2"@, a.country_code_alpha2)) + opt_leaf_v("country-code-alpha3"@, a.country_code_alpha3)) + opt_leaf_v("country-code-numeric"@, a.country_code_numeric)) + opt_leaf_v("country-name"@, a.country_name)), "first-name"@) == None::<ElemV>) by {
        lemma_find_opt_leaf("country-name"@, a.country_name, "first-name"@);
        lemma_find_append((((opt_leaf_v("company"@, a.company) + opt_leaf_v("country-code-alpha2"@, a.country_code_alpha2)) + opt_leaf_v("country-code-alpha3"@, a.country_code_alpha3)) + opt_leaf_v("country-code-numeric"@, a.country_code_numeric)), opt_leaf_v("country-name"@, a.country_name), "first-name"@);
    }
    assert(find_in((((((opt_leaf_v("company"@, a.company) + opt_leaf_v("country-code-alpha2"@, a.country_code_alpha2)) + opt_leaf_v("country-code-alpha3"@, a.country_code_alpha3)) + opt_leaf_v("country-code-numeric"@, a.country_code_numeric)) + opt_leaf_v("country-name"@, a.country_name)) + opt_leaf_v("extended-address"@, a.extended_address)), "first-name"@) == None::<ElemV>) by {
        lemma_find_opt_leaf("extended-address"@, a.extended_address, "first-name"@);
        lemma_find_append(((((opt_leaf_v("company"@, a.company) + opt_leaf_v("country-code-alpha2"@, a.country_code_alpha2)) + opt_leaf_v("country-code-alpha3"@, a.country_code_alpha3)) + opt_leaf_v("country-code-numeric"@, a.country_code_numeric)) + opt_leaf_v("country-name"@, a.country_name)), opt_leaf_v("extended-address"@, a.extended_address), "first-name"@);
    }
}

proof fn lemma_address_front_last_name(a: Address)
    ensures
        find_in(address_front(a), "last-name"@) == None::<ElemV>,
{
    reveal(address_front);
    lemma_address_tags_distinct();
    assert(find_in(opt_leaf_v("company"@, a.company), "last-name"@) == None::<ElemV>) by {
        lemma_find_opt_leaf("company"@, a.company, "last-name"@);
    }
    assert(find_in((opt_leaf_v("company"@, a.company) + opt_leaf_v("country-code-alpha2"@, a.country_code_alpha2)), "last-name"@) == None::<ElemV>) by {
        lemma_find_opt_leaf("country-code-alpha2"@, a.country_code_alpha2, "last-name"@);
        lemma_find_append(opt_leaf_v("company"@, a.company), opt_leaf_v("country-code-alpha2"@, a.country_code_alpha2), "last-name"@);
    }
    assert(find_in(((opt_leaf_v("company"@, a.company) + opt_leaf_v("country-code-alpha2"@, a.country_code_alpha2)) + opt_leaf_v("country-code-alpha3"@, a.country_code_alpha3)), "last-name"@) == None::<ElemV>) by {
        lemma_find_opt_leaf("country-code-alpha3"@, a.country_code_alpha3, "last-name"@);
        lemma_find_append((opt_leaf_v("company"@, a.company) + opt_leaf_v("country-code-alpha2"@, a.country_code_alpha2)), opt_leaf_v("country-code-alpha3"@, a.country_code_alpha3), "last-name"@);
    }
    assert(find_in((((opt_leaf_v("company"@, a.company) + opt_leaf_v("country-code-alpha2"@, a.country_code_alpha2)) + opt_leaf_v("country-code-alpha3"@, a.country_code_alpha3)) + opt_leaf_v("country-code-numeric"@, a.country_code_numeric)), "last-name"@) == None::<ElemV>) by {
        lemma_find_opt_leaf("country-code-numeric"@, a.country_code_numeric, "last-name"@);
        lemma_find_append(((opt_leaf_v("company"@, a.company) + opt_leaf_v("country-code-alpha2"@, a.country_code_alpha2)) + opt_leaf_v("country-code-alpha3"@, a.country_code_alpha3)), opt_leaf_v("country-code-numeric"@, a.country_code_numeric), "last-name"@);
    }
    assert(find_in(((((opt_leaf_v("company"@, a.company) + opt_leaf_v("country-code-alpha2"@, a.country_code_alpha2)) + opt_leaf_v("country-code-alpha3"@, a.country_code_alpha3)) + opt_leaf_v("country-code-numeric"@, a.country_code_numeric)) + opt_leaf_v("country-name"@, a.country_name)), "last-name"@) == None::<ElemV>) by {
        lemma_find_opt_leaf("country-name"@, a.country_name, "last-name"@);
        lemma_find_append((((opt_leaf_v("company"@, a.company) + opt_leaf_v("country-code-alpha2"@, a.country_code_alpha2)) + opt_leaf_v("country-code-alpha3"@, a.country_code_alpha3)) + opt_leaf_v("country-code-numeric"@, a.country_code_numeric)), opt_leaf_v("country-name"@, a.country_name), "last-name"@);
    }
    assert(find_in((((((opt_leaf_v("company"@, a.company) + opt_leaf_v("country-code-alpha2"@, a.country_code_alpha2)) + opt_leaf_v("country-code-alpha3"@, a.country_code_alpha3)) + opt_leaf_v("country-code-numeric"@, a.country_code_numeric)) + opt_leaf_v("country-name"@, a.country_name)) + opt_leaf_v("extended-address"@, a.extended_address)), "last-name"@) == None::<ElemV>) by {
        lemma_find_opt_leaf("extended-address"@, a.extended_address, "last-name"@);
        lemma_find_append(((((opt_leaf_v("company"@, a.company) + opt_leaf_v("country-code-alpha2"@, a.country_code_alpha2)) + opt_leaf_v("country-code-alpha3"@, a.country_code_alpha3)) + opt_leaf_v("country-code-numeric"@, a.country_code_numeric)) + opt_leaf_v("country-name"@, a.country_name)), opt_leaf_v("extended-address"@, a.extended_address), "last-name"@);
    }
}

proof fn lemma_address_front_locality(a: Address)
    ensures
        find_in(address_front(a), "locality"@) == None::<ElemV>,
{
    reveal(address_front);
    lemma_address_tags_distinct();
    assert(find_in(opt_leaf_v("company"@, a.company), "locality"@) == None::<ElemV>) by {
        lemma_find_opt_leaf("company"@, a.company, "locality"@);
    }
    assert(find_in((opt_leaf_v("company"@, a.company) + opt_leaf_v("country-code-alpha2"@, a.country_code_alpha2)), "locality"@) == None::<ElemV>) by {
        lemma_find_opt_leaf("country-code-alpha2"@, a.country_code_alpha2, "locality"@);
        lemma_find_append(opt_leaf_v("company"@, a.company), opt_leaf_v("country-code-alpha2"@, a.country_code_alpha2), "locality"@);
    }
    assert(find_in(((opt_leaf_v("company"@, a.company) + opt_leaf_v("country-code-alpha2"@, a.country_code_alpha2)) + opt_leaf_v("country-code-alpha3"@, a.country_code_alpha3)), "locality"@) == None::<ElemV>) by {
        lemma_find_opt_leaf("country-code-alpha3"@, a.country_code_alpha3, "locality"@);
        lemma_find_append((opt_leaf_v("company"@, a.company) + opt_leaf_v("country-code-alpha2"@, a.country_code_alpha2)), opt_leaf_v("country-code-alpha3"@, a.country_code_alpha3), "locality"@);
    }
    assert(find_in((((opt_leaf_v("company"@, a.company) + opt_leaf_v("country-code-alpha2"@, a.country_code_alpha2)) + opt_leaf_v("country-code-alpha3"@, a.country_code_alpha3)) + opt_leaf_v("country-code-numeric"@, a.country_code_numeric)), "locality"@) == None::<ElemV>) by {
        lemma_find_opt_leaf("country-code-numeric"@, a.country_code_numeric, "locality"@);
        lemma_find_append(((opt_leaf_v("company"@, a.company) + opt_leaf_v("country-code-alpha2"@, a.country_code_alpha2)) + opt_leaf_v("country-code-alpha3"@, a.country_code_alpha3)), opt_leaf_v("country-code-numeric"@, a.country_code_numeric), "locality"@);
    }
    assert(find_in(((((opt_leaf_v("company"@, a.company) + opt_leaf_v("country-code-alpha2"@, a.country_code_alpha2)) + opt_leaf_v("country-code-alpha3"@, a.country_code_alpha3)) + opt_leaf_v("country-code-numeric"@, a.country_code_numeric)) + opt_leaf_v("country-name"@, a.country_name)), "locality"@) == None::<ElemV>) by {
        lemma_find_opt_leaf("country-name"@, a.country_name, "locality"@);
        lemma_find_append((((opt_leaf_v("company"@, a.company) + opt_leaf_v("country-code-alpha2"@, a.country_code_alpha2)) + opt_leaf_v("country-code-alpha3"@, a.country_code_alpha3)) + opt_leaf_v("country-code-numeric"@, a.country_code_numeric)), opt_leaf_v("country-name"@, a.country_name), "locality"@);
    }
    assert(find_in((((((opt_leaf_v("company"@, a.company) + opt_leaf_v("country-code-alpha2"@, a.country_code_alpha2)) + opt_leaf_v("country-code-alpha3"@, a.country_code_alpha3)) + opt_leaf_v("country-code-numeric"@, a.country_code_numeric)) + opt_leaf_v("country-name"@, a.country_name)) + opt_leaf_v("extended-address"@, a.extended_address)), "locality"@) == None::<ElemV>) by {
        lemma_find_opt_leaf("extended-address"@, a.extended_address, "locality"@);
        lemma_find_append(((((opt_leaf_v("company"@, a.company) + opt_leaf_v("country-code-alpha2"@, a.country_code_alpha2)) + opt_leaf_v("country-code-alpha3"@, a.country_code_alpha3)) + opt_leaf_v("country-code-numeric"@, a.country_code_numeric)) + opt_leaf_v("country-name"@, a.country_name)), opt_leaf_v("extended-address"@, a.extended_address), "locality"@);
    }
}

proof fn lemma_address_front_postal_code(a: Address)
    ensures
        find_in(address_front(a), "postal-code"@) == None::<ElemV>,
{
    reveal(address_front);
    lemma_address_tags_distinct();
    assert(find_in(opt_leaf_v("company"@, a.company), "postal-code"@) == None::<ElemV>) by {
        lemma_find_opt_leaf("company"@, a.company, "postal-code"@);
    }
    assert(find_in((opt_leaf_v("company"@, a.company) + opt_leaf_v("country-code-alpha2"@, a.country_code_alpha2)), "postal-code"@) == None::<ElemV>) by {
        lemma_find_opt_leaf("country-code-alpha2"@, a.country_code_alpha2, "postal-code"@);
        lemma_find_append(opt_leaf_v("company"@, a.company), opt_leaf_v("country-code-alpha2"@, a.country_code_alpha2), "postal-code"@);
    }
    assert(find_in(((opt_leaf_v("company"@, a.company) + opt_leaf_v("country-code-alpha2"@, a.country_code_alpha2)) + opt_leaf_v("country-code-alpha3"@, a.country_code_alpha3)), "postal-code"@) == None::<ElemV>) by {
        lemma_find_opt_leaf("country-code-alpha3"@, a.country_code_alpha3, "postal-code"@);
        lemma_find_append((opt_leaf_v("company"@, a.company) + opt_leaf_v("country-code-alpha2"@, a.country_code_alpha2)), opt_leaf_v("country-code-alpha3"@, a.country_code_alpha3), "postal-code"@);
    }
    assert(find_in((((opt_leaf_v("company"@, a.company) + opt_leaf_v("country-code-alpha2"@, a.country_code_alpha2)) + opt_leaf_v("country-code-alpha3"@, a.country_code_alpha3)) + opt_leaf_v("country-code-numeric"@, a.country_code_numeric)), "postal-code"@) == None::<ElemV>) by {
        lemma_find_opt_leaf("country-code-numeric"@, a.country_code_numeric, "postal-code"@);
        lemma_find_append(((opt_leaf_v("company"@, a.company) + opt_leaf_v("country-code-alpha2"@, a.country_code_alpha2)) + opt_leaf_v("country-code-alpha3"@, a.country_code_alpha3)), opt_leaf_v("country-code-numeric"@, a.country_code_numeric), "postal-code"@);
    }
    assert(find_in(((((opt_leaf_v("company"@, a.company) + opt_leaf_v("country-code-alpha2"@, a.country_code_alpha2)) + opt_leaf_v("country-code-alpha3"@, a.country_code_alpha3)) + opt_leaf_v("country-code-numeric"@, a.country_code_numeric)) + opt_leaf_v("country-name"@, a.country_name)), "postal-code"@) == None::<ElemV>) by {
        lemma_find_opt_leaf("country-name"@, a.country_name, "postal-code"@);
        lemma_find_append((((opt_leaf_v("company"@, a.company) + opt_leaf_v("country-code-alpha2"@, a.country_code_alpha2)) + opt_leaf_v("country-code-alpha3"@, a.country_code_alpha3)) + opt_leaf_v("country-code-numeric"@, a.country_code_numeric)), opt_leaf_v("country-name"@, a.country_name), "postal-code"@);
    }
    assert(find_in((((((opt_leaf_v("company"@, a.company) + opt_leaf_v("country-code-alpha2"@, a.country_code_alpha2)) + opt_leaf_v("country-code-alpha3"@, a.country_code_alpha3)) + opt_leaf_v("country-code-numeric"@, a.country_code_numeric)) + opt_leaf_v("country-name"@, a.country_name)) + opt_leaf_v("extended-address"@, a.extended_address)), "postal-code"@) == None::<ElemV>) by {
        lemma_find_opt_leaf("extended-address"@, a.extended_address, "postal-code"@);
        lemma_find_append(((((opt_leaf_v("company"@, a.company) + opt_leaf_v("country-code-alpha2"@, a.country_code_alpha2)) + opt_leaf_v("country-code-alpha3"@, a.country_code_alpha3)) + opt_leaf_v("country-code-numeric"@, a.country_code_numeric)) + opt_leaf_v("country-name"@, a.country_name)), opt_leaf_v("extended-address"@, a.extended_address), "postal-code"@);
    }
}

proof fn lemma_address_front_region(a: Address)
    ensures
        find_in(address_front(a), "region"@) == None::<ElemV>,
{
    reveal(address_front);
    lemma_address_tags_distinct();
    assert(find_in(opt_leaf_v("company"@, a.company), "region"@) == None::<ElemV>) by {
        lemma_find_opt_leaf("company"@, a.company, "region"@);
    }
    assert(find_in((opt_leaf_v("company"@, a.company) + opt_leaf_v("country-code-alpha2"@, a.country_code_alpha2)), "region"@) == None::<ElemV>) by {
        lemma_find_opt_leaf("country-code-alpha2"@, a.country_code_alpha2, "region"@);
        lemma_find_append(opt_leaf_v("company"@, a.company), opt_leaf_v("country-code-alpha2"@, a.country_code_alpha2), "region"@);
    }
    assert(find_in(((opt_leaf_v("company"@, a.company) + opt_leaf_v("country-code-alpha2"@, a.country_code_alpha2)) + opt_leaf_v("country-code-alpha3"@, a.country_code_alpha3)), "region"@) == None::<ElemV>) by {
        lemma_find_opt_leaf("country-code-alpha3"@, a.country_code_alpha3, "region"@);
        lemma_find_append((opt_leaf_v("company"@, a.company) + opt_leaf_v("country-code-alpha2"@, a.country_code_alpha2)), opt_leaf_v("country-code-alpha3"@, a.country_code_alpha3), "region"@);
    }
    assert(find_in((((opt_leaf_v("company"@, a.company) + opt_leaf_v("country-code-alpha2"@, a.country_code_alpha2)) + opt_leaf_v("country-code-alpha3"@, a.country_code_alpha3)) + opt_leaf_v("country-code-numeric"@, a.country_code_numeric)), "region"@) == None::<ElemV>) by {
        lemma_find_opt_leaf("country-code-numeric"@, a.country_code_numeric, "region"@);
        lemma_find_append(((opt_leaf_v("company"@, a.company) + opt_leaf_v("country-code-alpha2"@, a.country_code_alpha2)) + opt_leaf_v("country-code-alpha3"@, a.country_code_alpha3)), opt_leaf_v("country-code-numeric"@, a.country_code_numeric), "region"@);
    }
    assert(find_in(((((opt_leaf_v("company"@, a.company) + opt_leaf_v("country-code-alpha2"@, a.country_code_alpha2)) + opt_leaf_v("country-code-alpha3"@, a.country_code_alpha3)) + opt_leaf_v("country-code-numeric"@, a.country_code_numeric)) + opt_leaf_v("country-name"@, a.country_name)), "region"@) == None::<ElemV>) by {
        lemma_find_opt_leaf("country-name"@, a.country_name, "region"@);
        lemma_find_append((((opt_leaf_v("company"@, a.company) + opt_leaf_v("country-code-alpha2"@, a.country_code_alpha2)) + opt_leaf_v("country-code-alpha3"@, a.country_code_alpha3)) + opt_leaf_v("country-code-numeric"@, a.country_code_numeric)), opt_leaf_v("country-name"@, a.country_name), "region"@);
    }
    assert(find_in((((((opt_leaf_v("company"@, a.company) + opt_leaf_v("country-code-alpha2"@, a.country_code_alpha2)) + opt_leaf_v("country-code-alpha3"@, a.country_code_alpha3)) + opt_leaf_v("country-code-numeric"@, a.country_code_numeric)) + opt_leaf_v("country-name"@, a.country_name)) + opt_leaf_v("extended-address"@, a.extended_address)), "region"@) == None::<ElemV>) by {
        lemma_find_opt_leaf("extended-address"@, a.extended_address, "region"@);
        lemma_find_append(((((opt_leaf_v("company"@, a.company) + opt_leaf_v("country-code-alpha2"@, a.country_code_alpha2)) + opt_leaf_v("country-code-alpha3"@, a.country_code_alpha3)) + opt_leaf_v("country-code-numeric"@, a.country_code_numeric)) + opt_leaf_v("country-name"@, a.country_name)), opt_leaf_v("extended-address"@, a.extended_address), "region"@);
    }
}

proof fn lemma_address_front_street_address(a: Address)
    ensures
        find_in(address_front(a), "street-address"@) == None::<ElemV>,
{
    reveal(address_front);
    lemma_address_tags_distinct();
    assert(find_in(opt_leaf_v("company"@, a.company), "street-address"@) == None::<ElemV>) by {
        lemma_find_opt_leaf("company"@, a.company, "street-address"@);
    }
    assert(find_in((opt_leaf_v("company"@, a.company) + opt_leaf_v("country-code-alpha2"@, a.country_code_alpha2)), "street-address"@) == None::<ElemV>) by {
        lemma_find_opt_leaf("country-code-alpha2"@, a.country_code_alpha2, "street-address"@);
        lemma_find_append(opt_leaf_v("company"@, a.company), opt_leaf_v("country-code-alpha2"@, a.country_code_alpha2), "street-address"@);
    }
    assert(find_in(((opt_leaf_v("company"@, a.company) + opt_leaf_v("country-code-alpha2"@, a.country_code_alpha2)) + opt_leaf_v("country-code-alpha3"@, a.country_code_alpha3)), "street-address"@) == None::<ElemV>) by {
        lemma_find_opt_leaf("country-code-alpha3"@, a.country_code_alpha3, "street-address"@);
        lemma_find_append((opt_leaf_v("company"@, a.company) + opt_leaf_v("country-code-alpha2"@, a.country_code_alpha2)), opt_leaf_v("country-code-alpha3"@, a.country_code_alpha3), "street-address"@);
    }
    assert(find_in((((opt_leaf_v("company"@, a.company) + opt_leaf_v("country-code-alpha2"@, a.country_code_alpha2)) + opt_leaf_v("country-code-alpha3"@, a.country_code_alpha3)) + opt_leaf_v("country-code-numeric"@, a.country_code_numeric)), "street-address"@) == None::<ElemV>) by {
        lemma_find_opt_leaf("country-code-numeric"@, a.country_code_numeric, "street-address"@);
        lemma_find_append(((opt_leaf_v("company"@, a.company) + opt_leaf_v("country-code-alpha2"@, a.country_code_alpha2)) + opt_leaf_v("country-code-alpha3"@, a.country_code_alpha3)), opt_leaf_v("country-code-numeric"@, a.country_code_numeric), "street-address"@);
    }
    assert(find_in(((((opt_leaf_v("company"@, a.company) + opt_leaf_v("country-code-alpha2"@, a.country_code_alpha2)) + opt_leaf_v("country-code-alpha3"@, a.country_code_alpha3)) + opt_leaf_v("country-code-numeric"@, a.country_code_numeric)) + opt_leaf_v("country-name"@, a.country_name)), "street-address"@) == None::<ElemV>) by {
        lemma_find_opt_leaf("country-name"@, a.country_name, "street-address"@);
        lemma_find_append((((opt_leaf_v("company"@, a.company) + opt_leaf_v("country-code-alpha2"@, a.country_code_alpha2)) + opt_leaf_v("country-code-alpha3"@, a.country_code_alpha3)) + opt_leaf_v("country-code-numeric"@, a.country_code_numeric)), opt_leaf_v("country-name"@, a.country_name), "street-address"@);
    }
    assert(find_in((((((opt_leaf_v("company"@, a.company) + opt_leaf_v("country-code-alpha2"@, a.country_code_alpha2)) + opt_leaf_v("country-code-alpha3"@, a.country_code_alpha3)) + opt_leaf_v("country-code-numeric"@, a.country_code_numeric)) + opt_leaf_v("country-name"@, a.country_name)) + opt_leaf_v("extended-address"@, a.extended_address)), "street-address"@) == None::<ElemV>) by {
        lemma_find_opt_leaf("extended-address"@, a.extended_address, "street-address"@);
        lemma_find_append(((((opt_leaf_v("company"@, a.company) + opt_leaf_v("country-code-alpha2"@, a.country_code_alpha2)) + opt_leaf_v("country-code-alpha3"@, a.country_code_alpha3)) + opt_leaf_v("country-code-numeric"@, a.country_code_numeric)) + opt_leaf_v("country-name"@, a.country_name)), opt_leaf_v("extended-address"@, a.extended_address), "street-address"@);
    }
}

proof fn lemma_address_back_company(a: Address)
    ensures
        find_in(address_back(a), "company"@) == None::<ElemV>,
{
    reveal(address_back);
    lemma_address_tags_distinct();
    assert(find_in(opt_leaf_v("first-name"@, a.first_name), "company"@) == None::<ElemV>) by {
        lemma_find_opt_leaf("first-name"@, a.first_name, "company"@);
    }
    assert(find_in((opt_leaf_v("first-name"@, a.first_name) + opt_leaf_v("last-name"@, a.last_name)), "company"@) == None::<ElemV>) by {
        lemma_find_opt_leaf("last-name"@, a.last_name, "company"@);
        lemma_find_append(opt_leaf_v("first-name"@, a.first_name), opt_leaf_v("last-name"@, a.last_name), "company"@);
    }
    assert(find_in(((opt_leaf_v("first-name"@, a.first_name) + opt_leaf_v("last-name"@, a.last_name)) + opt_leaf_v("locality"@, a.locality)), "company"@) == None::<ElemV>) by {
        lemma_find_opt_leaf("locality"@, a.locality, "company"@);
        lemma_find_append((opt_leaf_v("first-name"@, a.first_name) + opt_leaf_v("last-name"@, a.last_name)), opt_leaf_v("locality"@, a.locality), "company"@);
    }
    assert(find_in((((opt_leaf_v("first-name"@, a.first_name) + opt_leaf_v("last-name"@, a.last_name)) + opt_leaf_v("locality"@, a.locality)) + opt_leaf_v("postal-code"@, a.postal_code)), "company"@) == None::<ElemV>) by {
        lemma_find_opt_leaf("postal-code"@, a.postal_code, "company"@);
        lemma_find_append(((opt_leaf_v("first-name"@, a.first_name) + opt_leaf_v("last-name"@, a.last_name)) + opt_leaf_v("locality"@, a.locality)), opt_leaf_v("postal-code"@, a.postal_code), "company"@);
    }
    assert(find_in(((((opt_leaf_v("first-name"@, a.first_name) + opt_leaf_v("last-name"@, a.last_name)) + opt_leaf_v("locality"@, a.locality)) + opt_leaf_v("postal-code"@, a.postal_code)) + opt_leaf_v("region"@, a.region)), "company"@) == None::<ElemV>) by {
        lemma_find_opt_leaf("region"@, a.region, "company"@);
        lemma_find_append((((opt_leaf_v("first-name"@, a.first_name) + opt_leaf_v("last-name"@, a.last_name)) + opt_leaf_v("locality"@, a.locality)) + opt_leaf_v("postal-code"@, a.postal_code)), opt_leaf_v("region"@, a.region), "company"@);
    }
    assert(find_in((((((opt_leaf_v("first-name"@, a.first_name) + opt_leaf_v("last-name"@, a.last_name)) + opt_leaf_v("locality"@, a.locality)) + opt_leaf_v("postal-code"@, a.postal_code)) + opt_leaf_v("region"@, a.region)) + opt_leaf_v("street-address"@, a.street_address)), "company"@) == None::<ElemV>) by {
        lemma_find_opt_leaf("street-address"@, a.street_address, "company"@);
        lemma_find_append(((((opt_leaf_v("first-name"@, a.first_name) + opt_leaf_v("last-name"@, a.last_name)) + opt_leaf_v("locality"@, a.locality)) + opt_leaf_v("postal-code"@, a.postal_code)) + opt_leaf_v("region"@, a.region)), opt_leaf_v("street-address"@, a.street_address), "company"@);
    }
}

proof fn lemma_address_back_country_code_alpha2(a: Address)
    ensures
        find_in(address_back(a), "country-code-alpha2"@) == None::<ElemV>,
{
    reveal(address_back);
    lemma_address_tags_distinct();
    assert(find_in(opt_leaf_v("first-name"@, a.first_name), "country-code-alpha2"@) == None::<ElemV>) by {
        lemma_find_opt_leaf("first-name"@, a.first_name, "country-code-alpha2"@);
    }
    assert(find_in((opt_leaf_v("first-name"@, a.first_name) + opt_leaf_v("last-name"@, a.last_name)), "country-code-alpha2"@) == None::<ElemV>) by {
        lemma_find_opt_leaf("last-name"@, a.last_name, "country-code-alpha2"@);
        lemma_find_append(opt_leaf_v("first-name"@, a.first_name), opt_leaf_v("last-name"@, a.last_name), "country-code-alpha2"@);
    }
    assert(find_in(((opt_leaf_v("first-name"@, a.first_name) + opt_leaf_v("last-name"@, a.last_name)) + opt_leaf_v("locality"@, a.locality)), "country-code-alpha2"@) == None::<ElemV>) by {
        lemma_find_opt_leaf("locality"@, a.locality, "country-code-alpha2"@);
        lemma_find_append((opt_leaf_v("first-name"@, a.first_name) + opt_leaf_v("last-name"@, a.last_name)), opt_leaf_v("locality"@, a.locality), "country-code-alpha2"@);
    }
    assert(find_in((((opt_leaf_v("first-name"@, a.first_name) + opt_leaf_v("last-name"@, a.last_name)) + opt_leaf_v("locality"@, a.locality)) + opt_leaf_v("postal-code"@, a.postal_code)), "country-code-alpha2"@) == None::<ElemV>) by {
        lemma_find_opt_leaf("postal-code"@, a.postal_code, "country-code-alpha2"@);
        lemma_find_append(((opt_leaf_v("first-name"@, a.first_name) + opt_leaf_v("last-name"@, a.last_name)) + opt_leaf_v("locality"@, a.locality)), opt_leaf_v("postal-code"@, a.postal_code), "country-code-alpha2"@);
    }
    assert(find_in(((((opt_leaf_v("first-name"@, a.first_name) + opt_leaf_v("last-name"@, a.last_name)) + opt_leaf_v("locality"@, a.locality)) + opt_leaf_v("postal-code"@, a.postal_code)) + opt_leaf_v("region"@, a.region)), "country-code-alpha2"@) == None::<ElemV>) by {
        lemma_find_opt_leaf("region"@, a.region, "country-code-alpha2"@);
        lemma_find_append((((opt_leaf_v("first-name"@, a.first_name) + opt_leaf_v("last-name"@, a.last_name)) + opt_leaf_v("locality"@, a.locality)) + opt_leaf_v("postal-code"@, a.postal_code)), opt_leaf_v("region"@, a.region), "country-code-alpha2"@);
    }
    assert(find_in((((((opt_leaf_v("first-name"@, a.first_name) + opt_leaf_v("last-name"@, a.last_name)) + opt_leaf_v("locality"@, a.locality)) + opt_leaf_v("postal-code"@, a.postal_code)) + opt_leaf_v("region"@, a.region)) + opt_leaf_v("street-address"@, a.street_address)), "country-code-alpha2"@) == None::<ElemV>) by {
        lemma_find_opt_leaf("street-address"@, a.street_address, "country-code-alpha2"@);
        lemma_find_append(((((opt_leaf_v("first-name"@, a.first_name) + opt_leaf_v("last-name"@, a.last_name)) + opt_leaf_v("locality"@, a.locality)) + opt_leaf_v("postal-code"@, a.postal_code)) + opt_leaf_v("region"@, a.region)), opt_leaf_v("street-address"@, a.street_address), "country-code-alpha2"@);
    }
}

proof fn lemma_address_back_country_code_alpha3(a: Address)
    ensures
        find_in(address_back(a), "country-code-alpha3"@) == None::<ElemV>,
{
    reveal(address_back);
    lemma_address_tags_distinct();
    assert(find_in(opt_leaf_v("first-name"@, a.first_name), "country-code-alpha3"@) == None::<ElemV>) by {
        lemma_find_opt_leaf("first-name"@, a.first_name, "country-code-alpha3"@);
    }
    assert(find_in((opt_leaf_v("first-name"@, a.first_name) + opt_leaf_v("last-name"@, a.last_name)), "country-code-alpha3"@) == None::<ElemV>) by {
        lemma_find_opt_leaf("last-name"@, a.last_name, "country-code-alpha3"@);
        lemma_find_append(opt_leaf_v("first-name"@, a.first_name), opt_leaf_v("last-name"@, a.last_name), "country-code-alpha3"@);
    }
    assert(find_in(((opt_leaf_v("first-name"@, a.first_name) + opt_leaf_v("last-name"@, a.last_name)) + opt_leaf_v("locality"@, a.locality)), "country-code-alpha3"@) == None::<ElemV>) by {
        lemma_find_opt_leaf("locality"@, a.locality, "country-code-alpha3"@);
        lemma_find_append((opt_leaf_v("first-name"@, a.first_name) + opt_leaf_v("last-name"@, a.last_name)), opt_leaf_v("locality"@, a.locality), "country-code-alpha3"@);
    }
    assert(find_in((((opt_leaf_v("first-name"@, a.first_name) + opt_leaf_v("last-name"@, a.last_name)) + opt_leaf_v("locality"@, a.locality)) + opt_leaf_v("postal-code"@, a.postal_code)), "country-code-alpha3"@) == None::<ElemV>) by {
        lemma_find_opt_leaf("postal-code"@, a.postal_code, "country-code-alpha3"@);
        lemma_find_append(((opt_leaf_v("first-name"@, a.first_name) + opt_leaf_v("last-name"@, a.last_name)) + opt_leaf_v("locality"@, a.locality)), opt_leaf_v("postal-code"@, a.postal_code), "country-code-alpha3"@);
    }
    assert(find_in(((((opt_leaf_v("first-name"@, a.first_name) + opt_leaf_v("last-name"@, a.last_name)) + opt_leaf_v("locality"@, a.locality)) + opt_leaf_v("postal-code"@, a.postal_code)) + opt_leaf_v("region"@, a.region)), "country-code-alpha3"@) == None::<ElemV>) by {
        lemma_find_opt_leaf("region"@, a.region, "country-code-alpha3"@);
        lemma_find_append((((opt_leaf_v("first-name"@, a.first_name) + opt_leaf_v("last-name"@, a.last_name)) + opt_leaf_v("locality"@, a.locality)) + opt_leaf_v("postal-code"@, a.postal_code)), opt_leaf_v("region"@, a.region), "country-code-alpha3"@);
    }
    assert(find_in((((((opt_leaf_v("first-name"@, a.first_name) + opt_leaf_v("last-name"@, a.last_name)) + opt_leaf_v("locality"@, a.locality)) + opt_leaf_v("postal-code"@, a.postal_code)) + opt_leaf_v("region"@, a.region)) + opt_leaf_v("street-address"@, a.street_address)), "country-code-alpha3"@) == None::<ElemV>) by {
        lemma_find_opt_leaf("street-address"@, a.street_address, "country-code-alpha3"@);
        lemma_find_append(((((opt_leaf_v("first-name"@, a.first_name) + opt_leaf_v("last-name"@, a.last_name)) + opt_leaf_v("locality"@, a.locality)) + opt_leaf_v("postal-code"@, a.postal_code)) + opt_leaf_v("region"@, a.region)), opt_leaf_v("street-address"@, a.street_address), "country-code-alpha3"@);
    }
}

proof fn lemma_address_back_country_code_numeric(a: Address)
    ensures
        find_in(address_back(a), "country-code-numeric"@) == None::<ElemV>,
{
    reveal(address_back);
    lemma_address_tags_distinct();
    assert(find_in(opt_leaf_v("first-name"@, a.first_name), "country-code-numeric"@) == None::<ElemV>) by {
        lemma_find_opt_leaf("first-name"@, a.first_name, "country-code-numeric"@);
    }
    assert(find_in((opt_leaf_v("first-name"@, a.first_name) + opt_leaf_v("last-name"@, a.last_name)), "country-code-numeric"@) == None::<ElemV>) by {
        lemma_find_opt_leaf("last-name"@, a.last_name, "country-code-numeric"@);
        lemma_find_append(opt_leaf_v("first-name"@, a.first_name), opt_leaf_v("last-name"@, a.last_name), "country-code-numeric"@);
    }
    assert(find_in(((opt_leaf_v("first-name"@, a.first_name) + opt_leaf_v("last-name"@, a.last_name)) + opt_leaf_v("locality"@, a.locality)), "country-code-numeric"@) == None::<ElemV>) by {
        lemma_find_opt_leaf("locality"@, a.locality, "country-code-numeric"@);
        lemma_find_append((opt_leaf_v("first-name"@, a.first_name) + opt_leaf_v("last-name"@, a.last_name)), opt_leaf_v("locality"@, a.locality), "country-code-numeric"@);
    }
    assert(find_in((((opt_leaf_v("first-name"@, a.first_name) + opt_leaf_v("last-name"@, a.last_name)) + opt_leaf_v("locality"@, a.locality)) + opt_leaf_v("postal-code"@, a.postal_code)), "country-code-numeric"@) == None::<ElemV>) by {
        lemma_find_opt_leaf("postal-code"@, a.postal_code, "country-code-numeric"@);
        lemma_find_append(((opt_leaf_v("first-name"@, a.first_name) + opt_leaf_v("last-name"@, a.last_name)) + opt_leaf_v("locality"@, a.locality)), opt_leaf_v("postal-code"@, a.postal_code), "country-code-numeric"@);
    }
    assert(find_in(((((opt_leaf_v("first-name"@, a.first_name) + opt_leaf_v("last-name"@, a.last_name)) + opt_leaf_v("locality"@, a.locality)) + opt_leaf_v("postal-code"@, a.postal_code)) + opt_leaf_v("region"@, a.region)), "country-code-numeric"@) == None::<ElemV>) by {
        lemma_find_opt_leaf("region"@, a.region, "country-code-numeric"@);
        lemma_find_append((((opt_leaf_v("first-name"@, a.first_name) + opt_leaf_v("last-name"@, a.last_name)) + opt_leaf_v("locality"@, a.locality)) + opt_leaf_v("postal-code"@, a.postal_code)), opt_leaf_v("region"@, a.region), "country-code-numeric"@);
    }
    assert(find_in((((((opt_leaf_v("first-name"@, a.first_name) + opt_leaf_v("last-name"@, a.last_name)) + opt_leaf_v("locality"@, a.locality)) + opt_leaf_v("postal-code"@, a.postal_code)) + opt_leaf_v("region"@, a.region)) + opt_leaf_v("street-address"@, a.street_address)), "country-code-numeric"@) == None::<ElemV>) by {
        lemma_find_opt_leaf("street-address"@, a.street_address, "country-code-numeric"@);
        lemma_find_append(((((opt_leaf_v("first-name"@, a.first_name) + opt_leaf_v("last-name"@, a.last_name)) + opt_leaf_v("locality"@, a.locality)) + opt_leaf_v("postal-code"@, a.postal_code)) + opt_leaf_v("region"@, a.region)), opt_leaf_v("street-address"@, a.street_address), "country-code-numeric"@);
    }
}

proof fn lemma_address_back_country_name(a: Address)
    ensures
        find_in(address_back(a), "country-name"@) == None::<ElemV>,
{
    reveal(address_back);
    lemma_address_tags_distinct();
    assert(find_in(opt_leaf_v("first-name"@, a.first_name), "country-name"@) == None::<ElemV>) by {
        lemma_find_opt_leaf("first-name"@, a.first_name, "country-name"@);
    }
    assert(find_in((opt_leaf_v("first-name"@, a.first_name) + opt_leaf_v("last-name"@, a.last_name)), "country-name"@) == None::<ElemV>) by {
        lemma_find_opt_leaf("last-name"@, a.last_name, "country-name"@);
        lemma_find_append(opt_leaf_v("first-name"@, a.first_name), opt_leaf_v("last-name"@, a.last_name), "country-name"@);
    }
    assert(find_in(((opt_leaf_v("first-name"@, a.first_name) + opt_leaf_v("last-name"@, a.last_name)) + opt_leaf_v("locality"@, a.locality)), "country-name"@) == None::<ElemV>) by {
        lemma_find_opt_leaf("locality"@, a.locality, "country-name"@);
        lemma_find_append((opt_leaf_v("first-name"@, a.first_name) + opt_leaf_v("last-name"@, a.last_name)), opt_leaf_v("locality"@, a.locality), "country-name"@);
    }
    assert(find_in((((opt_leaf_v("first-name"@, a.first_name) + opt_leaf_v("last-name"@, a.last_name)) + opt_leaf_v("locality"@, a.locality)) + opt_leaf_v("postal-code"@, a.postal_code)), "country-name"@) == None::<ElemV>) by {
        lemma_find_opt_leaf("postal-code"@, a.postal_code, "country-name"@);
        lemma_find_append(((opt_leaf_v("first-name"@, a.first_name) + opt_leaf_v("last-name"@, a.last_name)) + opt_leaf_v("locality"@, a.locality)), opt_leaf_v("postal-code"@, a.postal_code), "country-name"@);
    }
    assert(find_in(((((opt_leaf_v("first-name"@, a.first_name) + opt_leaf_v("last-name"@, a.last_name)) + opt_leaf_v("locality"@, a.locality)) + opt_leaf_v("postal-code"@, a.postal_code)) + opt_leaf_v("region"@, a.region)), "country-name"@) == None::<ElemV>) by {
        lemma_find_opt_leaf("region"@, a.region, "country-name"@);
        lemma_find_append((((opt_leaf_v("first-name"@, a.first_name) + opt_leaf_v("last-name"@, a.last_name)) + opt_leaf_v("locality"@, a.locality)) + opt_leaf_v("postal-code"@, a.postal_code)), opt_leaf_v("region"@, a.region), "country-name"@);
    }
    assert(find_in((((((opt_leaf_v("first-name"@, a.first_name) + opt_leaf_v("last-name"@, a.last_name)) + opt_leaf_v("locality"@, a.locality)) + opt_leaf_v("postal-code"@, a.postal_code)) + opt_leaf_v("region"@, a.region)) + opt_leaf_v("street-address"@, a.street_address)), "country-name"@) == None::<ElemV>) by {
        lemma_find_opt_leaf("street-address"@, a.street_address, "country-name"@);
        lemma_find_append(((((opt_leaf_v("first-name"@, a.first_name) + opt_leaf_v("last-name"@, a.last_name)) + opt_leaf_v("locality"@, a.locality)) + opt_leaf_v("postal-code"@, a.postal_code)) + opt_leaf_v("region"@, a.region)), opt_leaf_v("street-address"@, a.street_address), "country-name"@);
    }
}

proof fn lemma_address_back_extended_address(a: Address)
    ensures
        find_in(address_back(a), "extended-address"@) == None::<ElemV>,
{
    reveal(address_back);
    lemma_address_tags_distinct();
    assert(find_in(opt_leaf_v("first-name"@, a.first_name), "extended-address"@) == None::<ElemV>) by {
        lemma_find_opt_leaf("first-name"@, a.first_name, "extended-address"@);
    }
    assert(find_in((opt_leaf_v("first-name"@, a.first_name) + opt_leaf_v("last-name"@, a.last_name)), "extended-address"@) == None::<ElemV>) by {
        lemma_find_opt_leaf("last-name"@, a.last_name, "extended-address"@);
        lemma_find_append(opt_leaf_v("first-name"@, a.first_name), opt_leaf_v("last-name"@, a.last_name), "extended-address"@);
    }
    assert(find_in(((opt_leaf_v("first-name"@, a.first_name) + opt_leaf_v("last-name"@, a.last_name)) + opt_leaf_v("locality"@, a.locality)), "extended-address"@) == None::<ElemV>) by {
        lemma_find_opt_leaf("locality"@, a.locality, "extended-address"@);
        lemma_find_append((opt_leaf_v("first-name"@, a.first_name) + opt_leaf_v("last-name"@, a.last_name)), opt_leaf_v("locality"@, a.locality), "extended-address"@);
    }
    assert(find_in((((opt_leaf_v("first-name"@, a.first_name) + opt_leaf_v("last-name"@, a.last_name)) + opt_leaf_v("locality"@, a.locality)) + opt_leaf_v("postal-code"@, a.postal_code)), "extended-address"@) == None::<ElemV>) by {
        lemma_find_opt_leaf("postal-code"@, a.postal_code, "extended-address"@);
        lemma_find_append(((opt_leaf_v("first-name"@, a.first_name) + opt_leaf_v("last-name"@, a.last_name)) + opt_leaf_v("locality"@, a.locality)), opt_leaf_v("postal-code"@, a.postal_code), "extended-address"@);
    }
    assert(find_in(((((opt_leaf_v("first-name"@, a.first_name) + opt_leaf_v("last-name"@, a.last_name)) + opt_leaf_v("locality"@, a.locality)) + opt_leaf_v("postal-code"@, a.postal_code)) + opt_leaf_v("region"@, a.region)), "extended-address"@) == None::<ElemV>) by {
        lemma_find_opt_leaf("region"@, a.region, "extended-address"@);
        lemma_find_append((((opt_leaf_v("first-name"@, a.first_name) + opt_leaf_v("last-name"@, a.last_name)) + opt_leaf_v("locality"@, a.locality)) + opt_leaf_v("postal-code"@, a.postal_code)), opt_leaf_v("region"@, a.region), "extended-address"@);
    }
    assert(find_in((((((opt_leaf_v("first-name"@, a.first_name) + opt_leaf_v("last-name"@, a.last_name)) + opt_leaf_v("locality"@, a.locality)) + opt_leaf_v("postal-code"@, a.postal_code)) + opt_leaf_v("region"@, a.region)) + opt_leaf_v("street-address"@, a.street_address)), "extended-address"@) == None::<ElemV>) by {
        lemma_find_opt_leaf("street-address"@, a.street_address, "extended-address"@);
        lemma_find_append(((((opt_leaf_v("first-name"@, a.first_name) + opt_leaf_v("last-name"@, a.last_name)) + opt_leaf_v("locality"@, a.locality)) + opt_leaf_v("postal-code"@, a.postal_code)) + opt_leaf_v("region"@, a.region)), opt_leaf_v("street-address"@, a.street_address), "extended-address"@);
    }
}

proof fn lemma_address_back_first_name(a: Address)
    ensures
        find_in(address_back(a), "first-name"@) == (match a.first_name { Some(s) => Some(leaf_v("first-name"@, s@)), None => None }),
{
    reveal(address_back);
    lemma_address_tags_distinct();
    assert(find_in(opt_leaf_v("first-name"@, a.first_name), "first-name"@) == (match a.first_name { Some(s) => Some(leaf_v("first-name"@, s@)), None => None })) by {
        lemma_find_opt_leaf("first-name"@, a.first_name, "first-name"@);
    }
    assert(find_in((opt_leaf_v("first-name"@, a.first_name) + opt_leaf_v("last-name"@, a.last_name)), "first-name"@) == (match a.first_name { Some(s) => Some(leaf_v("first-name"@, s@)), None => None })) by {
        lemma_find_opt_leaf("last-name"@, a.last_name, "first-name"@);
        lemma_find_append(opt_leaf_v("first-name"@, a.first_name), opt_leaf_v("last-name"@, a.last_name), "first-name"@);
    }
    assert(find_in(((opt_leaf_v("first-name"@, a.first_name) + opt_leaf_v("last-name"@, a.last_name)) + opt_leaf_v("locality"@, a.locality)), "first-name"@) == (match a.first_name { Some(s) => Some(leaf_v("first-name"@, s@)), None => None })) by {
        lemma_find_opt_leaf("locality"@, a.locality, "first-name"@);
        lemma_find_append((opt_leaf_v("first-name"@, a.first_name) + opt_leaf_v("last-name"@, a.last_name)), opt_leaf_v("locality"@, a.locality), "first-name"@);
    }
    assert(find_in((((opt_leaf_v("first-name"@, a.first_name) + opt_leaf_v("last-name"@, a.last_name)) + opt_leaf_v("locality"@, a.locality)) + opt_leaf_v("postal-code"@, a.postal_code)), "first-name"@) == (match a.first_name { Some(s) => Some(leaf_v("first-name"@, s@)), None => None })) by {
        lemma_find_opt_leaf("postal-code"@, a.postal_code, "first-name"@);
        lemma_find_append(((opt_leaf_v("first-name"@, a.first_name) + opt_leaf_v("last-name"@, a.last_name)) + opt_leaf_v("locality"@, a.locality)), opt_leaf_v("postal-code"@, a.postal_code), "first-name"@);
    }
    assert(find_in(((((opt_leaf_v("first-name"@, a.first_name) + opt_leaf_v("last-name"@, a.last_name)) + opt_leaf_v("locality"@, a.locality)) + opt_leaf_v("postal-code"@, a.postal_code)) + opt_leaf_v("region"@, a.region)), "first-name"@) == (match a.first_name { Some(s) => Some(leaf_v("first-name"@, s@)), None => None })) by {
        lemma_find_opt_leaf("region"@, a.region, "first-name"@);
        lemma_find_append((((opt_leaf_v("first-name"@, a.first_name) + opt_leaf_v("last-name"@, a.last_name)) + opt_leaf_v("locality"@, a.locality)) + opt_leaf_v("postal-code"@, a.postal_code)), opt_leaf_v("region"@, a.region), "first-name"@);
    }
    assert(find_in((((((opt_leaf_v("first-name"@, a.first_name) + opt_leaf_v("last-name"@, a.last_name)) + opt_leaf_v("locality"@, a.locality)) + opt_leaf_v("postal-code"@, a.postal_code)) + opt_leaf_v("region"@, a.region)) + opt_leaf_v("street-address"@, a.street_address)), "first-name"@) == (match a.first_name { Some(s) => Some(leaf_v("first-name"@, s@)), None => None })) by {
        lemma_find_opt_leaf("street-address"@, a.street_address, "first-name"@);
        lemma_find_append(((((opt_leaf_v("first-name"@, a.first_name) + opt_leaf_v("last-name"@, a.last_name)) + opt_leaf_v("locality"@, a.locality)) + opt_leaf_v("postal-code"@, a.postal_code)) + opt_leaf_v("region"@, a.region)), opt_leaf_v("street-address"@, a.street_address), "first-name"@);
    }
}

proof fn lemma_address_back_last_name(a: Address)
    ensures
        find_in(address_back(a), "last-name"@) == (match a.last_name { Some(s) => Some(leaf_v("last-name"@, s@)), None => None }),
{
    reveal(address_back);
    lemma_address_tags_distinct();
    assert(find_in(opt_leaf_v("first-name"@, a.first_name), "last-name"@) == None::<ElemV>) by {
        lemma_find_opt_leaf("first-name"@, a.first_name, "last-name"@);
    }
    assert(find_in((opt_leaf_v("first-name"@, a.first_name) + opt_leaf_v("last-name"@, a.last_name)), "last-name"@) == (match a.last_name { Some(s) => Some(leaf_v("last-name"@, s@)), None => None })) by {
        lemma_find_opt_leaf("last-name"@, a.last_name, "last-name"@);
        lemma_find_append(opt_leaf_v("first-name"@, a.first_name), opt_leaf_v("last-name"@, a.last_name), "last-name"@);
    }
    assert(find_in(((opt_leaf_v("first-name"@, a.first_name) + opt_leaf_v("last-name"@, a.last_name)) + opt_leaf_v("locality"@, a.locality)), "last-name"@) == (match a.last_name { Some(s) => Some(leaf_v("last-name"@, s@)), None => None })) by {
        lemma_find_opt_leaf("locality"@, a.locality, "last-name"@);
        lemma_find_append((opt_leaf_v("first-name"@, a.first_name) + opt_leaf_v("last-name"@, a.last_name)), opt_leaf_v("locality"@, a.locality), "last-name"@);
    }
    assert(find_in((((opt_leaf_v("first-name"@, a.first_name) + opt_leaf_v("last-name"@, a.last_name)) + opt_leaf_v("locality"@, a.locality)) + opt_leaf_v("postal-code"@, a.postal_code)), "last-name"@) == (match a.last_name { Some(s) => Some(leaf_v("last-name"@, s@)), None => None })) by {
        lemma_find_opt_leaf("postal-code"@, a.postal_code, "last-name"@);
        lemma_find_append(((opt_leaf_v("first-name"@, a.first_name) + opt_leaf_v("last-name"@, a.last_name)) + opt_leaf_v("locality"@, a.locality)), opt_leaf_v("postal-code"@, a.postal_code), "last-name"@);
    }
    assert(find_in(((((opt_leaf_v("first-name"@, a.first_name) + opt_leaf_v("last-name"@, a.last_name)) + opt_leaf_v("locality"@, a.locality)) + opt_leaf_v("postal-code"@, a.postal_code)) + opt_leaf_v("region"@, a.region)), "last-name"@) == (match a.last_name { Some(s) => Some(leaf_v("last-name"@, s@)), None => None })) by {
        lemma_find_opt_leaf("region"@, a.region, "last-name"@);
        lemma_find_append((((opt_leaf_v("first-name"@, a.first_name) + opt_leaf_v("last-name"@, a.last_name)) + opt_leaf_v("locality"@, a.locality)) + opt_leaf_v("postal-code"@, a.postal_code)), opt_leaf_v("region"@, a.region), "last-name"@);
    }
    assert(find_in((((((opt_leaf_v("first-name"@, a.first_name) + opt_leaf_v("last-name"@, a.last_name)) + opt_leaf_v("locality"@, a.locality)) + opt_leaf_v("postal-code"@, a.postal_code)) + opt_leaf_v("region"@, a.region)) + opt_leaf_v("street-address"@, a.street_address)), "last-name"@) == (match a.last_name { Some(s) => Some(leaf_v("last-name"@, s@)), None => None })) by {
        lemma_find_opt_leaf("street-address"@, a.street_address, "last-name"@);
        lemma_find_append(((((opt_leaf_v("first-name"@, a.first_name) + opt_leaf_v("last-name"@, a.last_name)) + opt_leaf_v("locality"@, a.locality)) + opt_leaf_v("postal-code"@, a.postal_code)) + opt_leaf_v("region"@, a.region)), opt_leaf_v("street-address"@, a.street_address), "last-name"@);
    }
}

proof fn lemma_address_back_locality(a: Address)
    ensures
        find_in(address_back(a), "locality"@) == (match a.locality { Some(s) => Some(leaf_v("locality"@, s@)), None => None }),
{
    reveal(address_back);
    lemma_address_tags_distinct();
    assert(find_in(opt_leaf_v("first-name"@, a.first_name), "locality"@) == None::<ElemV>) by {
        lemma_find_opt_leaf("first-name"@, a.first_name, "locality"@);
    }
    assert(find_in((opt_leaf_v("first-name"@, a.first_name) + opt_leaf_v("last-name"@, a.last_name)), "locality"@) == None::<ElemV>) by {
        lemma_find_opt_leaf("last-name"@, a.last_name, "locality"@);
        lemma_find_append(opt_leaf_v("first-name"@, a.first_name), opt_leaf_v("last-name"@, a.last_name), "locality"@);
    }
    assert(find_in(((opt_leaf_v("first-name"@, a.first_name) + opt_leaf_v("last-name"@, a.last_name)) + opt_leaf_v("locality"@, a.locality)), "locality"@) == (match a.locality { Some(s) => Some(leaf_v("locality"@, s@)), None => None })) by {
        lemma_find_opt_leaf("locality"@, a.locality, "locality"@);
        lemma_find_append((opt_leaf_v("first-name"@, a.first_name) + opt_leaf_v("last-name"@, a.last_name)), opt_leaf_v("locality"@, a.locality), "locality"@);
    }
    assert(find_in((((opt_leaf_v("first-name"@, a.first_name) + opt_leaf_v("last-name"@, a.last_name)) + opt_leaf_v("locality"@, a.locality)) + opt_leaf_v("postal-code"@, a.postal_code)), "locality"@) == (match a.locality { Some(s) => Some(leaf_v("locality"@, s@)), None => None })) by {
        lemma_find_opt_leaf("postal-code"@, a.postal_code, "locality"@);
        lemma_find_append(((opt_leaf_v("first-name"@, a.first_name) + opt_leaf_v("last-name"@, a.last_name)) + opt_leaf_v("locality"@, a.locality)), opt_leaf_v("postal-code"@, a.postal_code), "locality"@);
    }
    assert(find_in(((((opt_leaf_v("first-name"@, a.first_name) + opt_leaf_v("last-name"@, a.last_name)) + opt_leaf_v("locality"@, a.locality)) + opt_leaf_v("postal-code"@, a.postal_code)) + opt_leaf_v("region"@, a.region)), "locality"@) == (match a.locality { Some(s) => Some(leaf_v("locality"@, s@)), None => None })) by {
        lemma_find_opt_leaf("region"@, a.region, "locality"@);
        lemma_find_append((((opt_leaf_v("first-name"@, a.first_name) + opt_leaf_v("last-name"@, a.last_name)) + opt_leaf_v("locality"@, a.locality)) + opt_leaf_v("postal-code"@, a.postal_code)), opt_leaf_v("region"@, a.region), "locality"@);
    }
    assert(find_in((((((opt_leaf_v("first-name"@, a.first_name) + opt_leaf_v("last-name"@, a.last_name)) + opt_leaf_v("locality"@, a.locality)) + opt_leaf_v("postal-code"@, a.postal_code)) + opt_leaf_v("region"@, a.region)) + opt_leaf_v("street-address"@, a.street_address)), "locality"@) == (match a.locality { Some(s) => Some(leaf_v("locality"@, s@)), None => None })) by {
        lemma_find_opt_leaf("street-address"@, a.street_address, "locality"@);
        lemma_find_append(((((opt_leaf_v("first-name"@, a.first_name) + opt_leaf_v("last-name"@, a.last_name)) + opt_leaf_v("locality"@, a.locality)) + opt_leaf_v("postal-code"@, a.postal_code)) + opt_leaf_v("region"@, a.region)), opt_leaf_v("street-address"@, a.street_address), "locality"@);
    }
}

proof fn lemma_address_back_postal_code(a: Address)
    ensures
        find_in(address_back(a), "postal-code"@) == (match a.postal_code { Some(s) => Some(leaf_v("postal-code"@, s@)), None => None }),
{
    reveal(address_back);
    lemma_address_tags_distinct();
    assert(find_in(opt_leaf_v("first-name"@, a.first_name), "postal-code"@) == None::<ElemV>) by {
        lemma_find_opt_leaf("first-name"@, a.first_name, "postal-code"@);
    }
    assert(find_in((opt_leaf_v("first-name"@, a.first_name) + opt_leaf_v("last-name"@, a.last_name)), "postal-code"@) == None::<ElemV>) by {
        lemma_find_opt_leaf("last-name"@, a.last_name, "postal-code"@);
        lemma_find_append(opt_leaf_v("first-name"@, a.first_name), opt_leaf_v("last-name"@, a.last_name), "postal-code"@);
    }
    assert(find_in(((opt_leaf_v("first-name"@, a.first_name) + opt_leaf_v("last-name"@, a.last_name)) + opt_leaf_v("locality"@, a.locality)), "postal-code"@) == None::<ElemV>) by {
        lemma_find_opt_leaf("locality"@, a.locality, "postal-code"@);
        lemma_find_append((opt_leaf_v("first-name"@, a.first_name) + opt_leaf_v("last-name"@, a.last_name)), opt_leaf_v("locality"@, a.locality), "postal-code"@);
    }
    assert(find_in((((opt_leaf_v("first-name"@, a.first_name) + opt_leaf_v("last-name"@, a.last_name)) + opt_leaf_v("locality"@, a.locality)) + opt_leaf_v("postal-code"@, a.postal_code)), "postal-code"@) == (match a.postal_code { Some(s) => Some(leaf_v("postal-code"@, s@)), None => None })) by {
        lemma_find_opt_leaf("postal-code"@, a.postal_code, "postal-code"@);
        lemma_find_append(((opt_leaf_v("first-name"@, a.first_name) + opt_leaf_v("last-name"@, a.last_name)) + opt_leaf_v("locality"@, a.locality)), opt_leaf_v("postal-code"@, a.postal_code), "postal-code"@);
    }
    assert(find_in(((((opt_leaf_v("first-name"@, a.first_name) + opt_leaf_v("last-name"@, a.last_name)) + opt_leaf_v("locality"@, a.locality)) + opt_leaf_v("postal-code"@, a.postal_code)) + opt_leaf_v("region"@, a.region)), "postal-code"@) == (match a.postal_code { Some(s) => Some(leaf_v("postal-code"@, s@)), None => None })) by {
        lemma_find_opt_leaf("region"@, a.region, "postal-code"@);
        lemma_find_append((((opt_leaf_v("first-name"@, a.first_name) + opt_leaf_v("last-name"@, a.last_name)) + opt_leaf_v("locality"@, a.locality)) + opt_leaf_v("postal-code"@, a.postal_code)), opt_leaf_v("region"@, a.region), "postal-code"@);
    }
    assert(find_in((((((opt_leaf_v("first-name"@, a.first_name) + opt_leaf_v("last-name"@, a.last_name)) + opt_leaf_v("locality"@, a.locality)) + opt_leaf_v("postal-code"@, a.postal_code)) + opt_leaf_v("region"@, a.region)) + opt_leaf_v("street-address"@, a.street_address)), "postal-code"@) == (match a.postal_code { Some(s) => Some(leaf_v("postal-code"@, s@)), None => None })) by {
        lemma_find_opt_leaf("street-address"@, a.street_address, "postal-code"@);
        lemma_find_append(((((opt_leaf_v("first-name"@, a.first_name) + opt_leaf_v("last-name"@, a.last_name)) + opt_leaf_v("locality"@, a.locality)) + opt_leaf_v("postal-code"@, a.postal_code)) + opt_leaf_v("region"@, a.region)), opt_leaf_v("street-address"@, a.street_address), "postal-code"@);
    }
}

proof fn lemma_address_back_region(a: Address)
    ensures
        find_in(address_back(a), "region"@) == (match a.region { Some(s) => Some(leaf_v("region"@, s@)), None => None }),
{
    reveal(address_back);
    lemma_address_tags_distinct();
    assert(find_in(opt_leaf_v("first-name"@, a.first_name), "region"@) == None::<ElemV>) by {
        lemma_find_opt_leaf("first-name"@, a.first_name, "region"@);
    }
    assert(find_in((opt_leaf_v("first-name"@, a.first_name) + opt_leaf_v("last-name"@, a.last_name)), "region"@) == None::<ElemV>) by {
        lemma_find_opt_leaf("last-name"@, a.last_name, "region"@);
        lemma_find_append(opt_leaf_v("first-name"@, a.first_name), opt_leaf_v("last-name"@, a.last_name), "region"@);
    }
    assert(find_in(((opt_leaf_v("first-name"@, a.first_name) + opt_leaf_v("last-name"@, a.last_name)) + opt_leaf_v("locality"@, a.locality)), "region"@) == None::<ElemV>) by {
        lemma_find_opt_leaf("locality"@, a.locality, "region"@);
        lemma_find_append((opt_leaf_v("first-name"@, a.first_name) + opt_leaf_v("last-name"@, a.last_name)), opt_leaf_v("locality"@, a.locality), "region"@);
    }
    assert(find_in((((opt_leaf_v("first-name"@, a.first_name) + opt_leaf_v("last-name"@, a.last_name)) + opt_leaf_v("locality"@, a.locality)) + opt_leaf_v("postal-code"@, a.postal_code)), "region"@) == None::<ElemV>) by {
        lemma_find_opt_leaf("postal-code"@, a.postal_code, "region"@);
        lemma_find_append(((opt_leaf_v("first-name"@, a.first_name) + opt_leaf_v("last-name"@, a.last_name)) + opt_leaf_v("locality"@, a.locality)), opt_leaf_v("postal-code"@, a.postal_code), "region"@);
    }
    assert(find_in(((((opt_leaf_v("first-name"@, a.first_name) + opt_leaf_v("last-name"@, a.last_name)) + opt_leaf_v("locality"@, a.locality)) + opt_leaf_v("postal-code"@, a.postal_code)) + opt_leaf_v("region"@, a.region)), "region"@) == (match a.region { Some(s) => Some(leaf_v("region"@, s@)), None => None })) by {
        lemma_find_opt_leaf("region"@, a.region, "region"@);
        lemma_find_append((((opt_leaf_v("first-name"@, a.first_name) + opt_leaf_v("last-name"@, a.last_name)) + opt_leaf_v("locality"@, a.locality)) + opt_leaf_v("postal-code"@, a.postal_code)), opt_leaf_v("region"@, a.region), "region"@);
    }
    assert(find_in((((((opt_leaf_v("first-name"@, a.first_name) + opt_leaf_v("last-name"@, a.last_name)) + opt_leaf_v("locality"@, a.locality)) + opt_leaf_v("postal-code"@, a.postal_code)) + opt_leaf_v("region"@, a.region)) + opt_leaf_v("street-address"@, a.street_address)), "region"@) == (match a.region { Some(s) => Some(leaf_v("region"@, s@)), None => None })) by {
        lemma_find_opt_leaf("street-address"@, a.street_address, "region"@);
        lemma_find_append(((((opt_leaf_v("first-name"@, a.first_name) + opt_leaf_v("last-name"@, a.last_name)) + opt_leaf_v("locality"@, a.locality)) + opt_leaf_v("postal-code"@, a.postal_code)) + opt_leaf_v("region"@, a.region)), opt_leaf_v("street-address"@, a.street_address), "region"@);
    }
}

proof fn lemma_address_back_street_address(a: Address)
    ensures
        find_in(address_back(a), "street-address"@) == (match a.street_address { Some(s) => Some(leaf_v("street-address"@, s@)), None => None }),
{
    reveal(address_back);
    lemma_address_tags_distinct();
    assert(find_in(opt_leaf_v("first-name"@, a.first_name), "street-address"@) == None::<ElemV>) by {
        lemma_find_opt_leaf("first-name"@, a.first_name, "street-address"@);
    }
    assert(find_in((opt_leaf_v("first-name"@, a.first_name) + opt_leaf_v("last-name"@, a.last_name)), "street-address"@) == None::<ElemV>) by {
        lemma_find_opt_leaf("last-name"@, a.last_name, "street-address"@);
        lemma_find_append(opt_leaf_v("first-name"@, a.first_name), opt_leaf_v("last-name"@, a.last_name), "street-address"@);
    }
    assert(find_in(((opt_leaf_v("first-name"@, a.first_name) + opt_leaf_v("last-name"@, a.last_name)) + opt_leaf_v("locality"@, a.locality)), "street-address"@) == None::<ElemV>) by {
        lemma_find_opt_leaf("locality"@, a.locality, "street-address"@);
        lemma_find_append((opt_leaf_v("first-name"@, a.first_name) + opt_leaf_v("last-name"@, a.last_name)), opt_leaf_v("locality"@, a.locality), "street-address"@);
    }
    assert(find_in((((opt_leaf_v("first-name"@, a.first_name) + opt_leaf_v("last-name"@, a.last_name)) + opt_leaf_v("locality"@, a.locality)) + opt_leaf_v("postal-code"@, a.postal_code)), "street-address"@) == None::<ElemV>) by {
        lemma_find_opt_leaf("postal-code"@, a.postal_code, "street-address"@);
        lemma_find_append(((opt_leaf_v("first-name"@, a.first_name) + opt_leaf_v("last-name"@, a.last_name)) + opt_leaf_v("locality"@, a.locality)), opt_leaf_v("postal-code"@, a.postal_code), "street-address"@);
    }
    assert(find_in(((((opt_leaf_v("first-name"@, a.first_name) + opt_leaf_v("last-name"@, a.last_name)) + opt_leaf_v("locality"@, a.locality)) + opt_leaf_v("postal-code"@, a.postal_code)) + opt_leaf_v("region"@, a.region)), "street-address"@) == None::<ElemV>) by {
        lemma_find_opt_leaf("region"@, a.region, "street-address"@);
        lemma_find_append((((opt_leaf_v("first-name"@, a.first_name) + opt_leaf_v("last-name"@, a.last_name)) + opt_leaf_v("locality"@, a.locality)) + opt_leaf_v("postal-code"@, a.postal_code)), opt_leaf_v("region"@, a.region), "street-address"@);
    }
    assert(find_in((((((opt_leaf_v("first-name"@, a.first_name) + opt_leaf_v("last-name"@, a.last_name)) + opt_leaf_v("locality"@, a.locality)) + opt_leaf_v("postal-code"@, a.postal_code)) + opt_leaf_v("region"@, a.region)) + opt_leaf_v("street-address"@, a.street_address)), "street-address"@) == (match a.street_address { Some(s) => Some(leaf_v("street-address"@, s@)), None => None })) by {
        lemma_find_opt_leaf("street-address"@, a.street_address, "street-address"@);
        lemma_find_append(((((opt_leaf_v("first-name"@, a.first_name) + opt_leaf_v("last-name"@, a.last_name)) + opt_leaf_v("locality"@, a.locality)) + opt_leaf_v("postal-code"@, a.postal_code)) + opt_leaf_v("region"@, a.region)), opt_leaf_v("street-address"@, a.street_address), "street-address"@);
    }
}

proof fn lemma_address_find_company(a: Address)
    ensures
        find_in(address_children(a), "company"@) == (match a.company { Some(s) => Some(leaf_v("company"@, s@)), None => None }),
{
    lemma_address_front_company(a);
    lemma_address_back_company(a);
    lemma_find_append(address_front(a), address_back(a), "company"@);
}

proof fn lemma_address_find_country_code_alpha2(a: Address)
    ensures
        find_in(address_children(a), "country-code-alpha2"@) == (match a.country_code_alpha2 { Some(s) => Some(leaf_v("country-code-alpha2"@, s@)), None => None }),
{
    lemma_address_front_country_code_alpha2(a);
    lemma_address_back_country_code_alpha2(a);
    lemma_find_append(address_front(a), address_back(a), "country-code-alpha2"@);
}

proof fn lemma_address_find_country_code_alpha3(a: Address)
    ensures
        find_in(address_children(a), "country-code-alpha3"@) == (match a.country_code_alpha3 { Some(s) => Some(leaf_v("country-code-alpha3"@, s@)), None => None }),
{
    lemma_address_front_country_code_alpha3(a);
    lemma_address_back_country_code_alpha3(a);
    lemma_find_append(address_front(a), address_back(a), "country-code-alpha3"@);
}

proof fn lemma_address_find_country_code_numeric(a: Address)
    ensures
        find_in(address_children(a), "country-code-numeric"@) == (match a.country_code_numeric { Some(s) => Some(leaf_v("country-code-numeric"@, s@)), None => None }),
{
    lemma_address_front_country_code_numeric(a);
    lemma_address_back_country_code_numeric(a);
    lemma_find_append(address_front(a), address_back(a), "country-code-numeric"@);
}

proof fn lemma_address_find_country_name(a: Address)
    ensures
        find_in(address_children(a), "country-name"@) == (match a.country_name { Some(s) => Some(leaf_v("country-name"@, s@)), None => None }),
{
    lemma_address_front_country_name(a);
    lemma_address_back_country_name(a);
    lemma_find_append(address_front(a), address_back(a), "country-name"@);
}

proof fn lemma_address_find_extended_address(a: Address)
    ensures
        find_in(address_children(a), "extended-address"@) == (match a.extended_address { Some(s) => Some(leaf_v("extended-address"@, s@)), None => None }),
{
    lemma_address_front_extended_address(a);
    lemma_address_back_extended_address(a);
    lemma_find_append(address_front(a), address_back(a), "extended-address"@);
}

proof fn lemma_address_find_first_name(a: Address)
    ensures
        find_in(address_children(a), "first-name"@) == (match a.first_name { Some(s) => Some(leaf_v("first-name"@, s@)), None => None }),
{
    lemma_address_front_first_name(a);
    lemma_address_back_first_name(a);
    lemma_find_append(address_front(a), address_back(a), "first-name"@);
}

proof fn lemma_address_find_last_name(a: Address)
    ensures
        find_in(address_children(a), "last-name"@) == (match a.last_name { Some(s) => Some(leaf_v("last-name"@, s@)), None => None }),
{
    lemma_address_front_last_name(a);
    lemma_address_back_last_name(a);
    lemma_find_append(address_front(a), address_back(a), "last-name"@);
}

proof fn lemma_address_find_locality(a: Address)
    ensures
        find_in(address_children(a), "locality"@) == (match a.locality { Some(s) => Some(leaf_v("locality"@, s@)), None => None }),
{
    lemma_address_front_locality(a);
    lemma_address_back_locality(a);
    lemma_find_append(address_front(a), address_back(a), "locality"@);
}

proof fn lemma_address_find_postal_code(a: Address)
    ensures
        find_in(address_children(a), "postal-code"@) == (match a.postal_code { Some(s) => Some(leaf_v("postal-code"@, s@)), None => None }),
{
    lemma_address_front_postal_code(a);
    lemma_address_back_postal_code(a);
    lemma_find_append(address_front(a), address_back(a), "postal-code"@);
}

proof fn lemma_address_find_region(a: Address)
    ensures
        find_in(address_children(a), "region"@) == (match a.region { Some(s) => Some(leaf_v("region"@, s@)), None => None }),
{
    lemma_address_front_region(a);
    lemma_address_back_region(a);
    lemma_find_append(address_front(a), address_back(a), "region"@);
}

proof fn lemma_address_find_street_address(a: Address)
    ensures
        find_in(address_children(a), "street-address"@) == (match a.street_address { Some(s) => Some(leaf_v("street-address"@, s@)), None => None }),
{
    lemma_address_front_street_address(a);
    lemma_address_back_street_address(a);
    lemma_find_append(address_front(a), address_back(a), "street-address"@);
}

/// Law: encoding exposes exactly the declared fields. Each present field
/// becomes the text of its tag's child and each absent field leaves no
/// child, so the encoded element matches the record itself and decoding
/// it gives back every field value.
pub proof fn lemma_address_round_trip(a: Address, name: Seq<char>)
    ensures
        child_text(address_elem(a, name), "company"@) == opt_view(a.company),
        child_text(address_elem(a, name), "country-code-alpha2"@) == opt_view(a.country_code_alpha2),
        child_text(address_elem(a, name), "country-code-alpha3"@) == opt_view(a.country_code_alpha3),
        child_text(address_elem(a, name), "country-code-numeric"@) == opt_view(a.country_code_numeric),
        child_text(address_elem(a, name), "country-name"@) == opt_view(a.country_name),
        child_text(address_elem(a, name), "extended-address"@) == opt_view(a.extended_address),
        child_text(address_elem(a, name), "first-name"@) == opt_view(a.first_name),
        child_text(address_elem(a, name), "last-name"@) == opt_view(a.last_name),
        child_text(address_elem(a, name), "locality"@) == opt_view(a.locality),
        child_text(address_elem(a, name), "postal-code"@) == opt_view(a.postal_code),
        child_text(address_elem(a, name), "region"@) == opt_view(a.region),
        child_text(address_elem(a, name), "street-address"@) == opt_view(a.street_address),
        address_matches(a, address_elem(a, name)),
{
    lemma_address_find_company(a);
    lemma_address_find_country_code_alpha2(a);
    lemma_address_find_country_code_alpha3(a);
    lemma_address_find_country_code_numeric(a);
    lemma_address_find_country_name(a);
    lemma_address_find_extended_address(a);
    lemma_address_find_first_name(a);
    lemma_address_find_last_name(a);
    lemma_address_find_locality(a);
    lemma_address_find_postal_code(a);
    lemma_address_find_region(a);
    lemma_address_find_street_address(a);
}




/// The tags the address codec declares are valid element names.
proof fn lemma_address_tags_wf()
    ensures
        wf_name("company"@) && wf_name("country-code-alpha2"@) && wf_name("country-code-alpha3"@) && wf_name("country-code-numeric"@) && wf_name("country-name"@) && wf_name("extended-address"@) && wf_name("first-name"@) && wf_name("last-name"@) && wf_name("locality"@) && wf_name("postal-code"@) && wf_name("region"@) && wf_name("street-address"@),
{
    reveal_strlit("company");
    reveal_strlit("country-code-alpha2");
    reveal_strlit("country-code-alpha3");
    reveal_strlit("country-code-numeric");
    reveal_strlit("country-name");
    reveal_strlit("extended-address");
    reveal_strlit("first-name");
    reveal_strlit("last-name");
    reveal_strlit("locality");
    reveal_strlit("postal-code");
    reveal_strlit("region");
    reveal_strlit("street-address");
    assert(wf_name("company"@));
    assert(wf_name("country-code-alpha2"@));
    assert(wf_name("country-code-alpha3"@));
    assert(wf_name("country-code-numeric"@));
    assert(wf_name("country-name"@));
    assert(wf_name("extended-address"@));
    assert(wf_name("first-name"@));
    assert(wf_name("last-name"@));
    assert(wf_name("locality"@));
    assert(wf_name("postal-code"@));
    assert(wf_name("region"@));
    assert(wf_name("street-address"@));
}

/// An encoded address is a canonical element whenever its element name is
/// a valid name, so its serialized document parses back to exactly it.
pub proof fn lemma_address_wf(a: Address, name: Seq<char>)
    requires
        wf_name(name),
    ensures
        wf_elem(address_elem(a, name)),
        canonical_doc(ser_elem(address_elem(a, name))) == Some(address_elem(a, name)),
{
    lemma_address_tags_wf();
    reveal(address_front);
    reveal(address_back);
    lemma_wf_opt_leaf("company"@, a.company);
    lemma_wf_opt_leaf("country-code-alpha2"@, a.country_code_alpha2);
    lemma_wf_opt_leaf("country-code-alpha3"@, a.country_code_alpha3);
    lemma_wf_opt_leaf("country-code-numeric"@, a.country_code_numeric);
    lemma_wf_opt_leaf("country-name"@, a.country_name);
    lemma_wf_opt_leaf("extended-address"@, a.extended_address);
    lemma_wf_opt_leaf("first-name"@, a.first_name);
    lemma_wf_opt_leaf("last-name"@, a.last_name);
    lemma_wf_opt_leaf("locality"@, a.locality);
    lemma_wf_opt_leaf("postal-code"@, a.postal_code);
    lemma_wf_opt_leaf("region"@, a.region);
    lemma_wf_opt_leaf("street-address"@, a.street_address);
    lemma_wf_append(opt_leaf_v("company"@, a.company), opt_leaf_v("country-code-alpha2"@, a.country_code_alpha2));
    lemma_wf_append((opt_leaf_v("company"@, a.company) + opt_leaf_v("country-code-alpha2"@, a.country_code_alpha2)), opt_leaf_v("country-code-alpha3"@, a.country_code_alpha3));
    lemma_wf_append(((opt_leaf_v("company"@, a.company) + opt_leaf_v("country-code-alpha2"@, a.country_code_alpha2)) + opt_leaf_v("country-code-alpha3"@, a.country_code_alpha3)), opt_leaf_v("country-code-numeric"@, a.country_code_numeric));
    lemma_wf_append((((opt_leaf_v("company"@, a.company) + opt_leaf_v("country-code-alpha2"@, a.country_code_alpha2)) + opt_leaf_v("country-code-alpha3"@, a.country_code_alpha3)) + opt_leaf_v("country-code-numeric"@, a.country_code_numeric)), opt_leaf_v("country-name"@, a.country_name));
    lemma_wf_append(((((opt_leaf_v("company"@, a.company) + opt_leaf_v("country-code-alpha2"@, a.country_code_alpha2)) + opt_leaf_v("country-code-alpha3"@, a.country_code_alpha3)) + opt_leaf_v("country-code-numeric"@, a.country_code_numeric)) + opt_leaf_v("country-name"@, a.country_name)), opt_leaf_v("extended-address"@, a.extended_address));
    lemma_wf_append(opt_leaf_v("first-name"@, a.first_name), opt_leaf_v("last-name"@, a.last_name));
    lemma_wf_append((opt_leaf_v("first-name"@, a.first_name) + opt_leaf_v("last-name"@, a.last_name)), opt_leaf_v("locality"@, a.locality));
    lemma_wf_append(((opt_leaf_v("first-name"@, a.first_name) + opt_leaf_v("last-name"@, a.last_name)) + opt_leaf_v("locality"@, a.locality)), opt_leaf_v("postal-code"@, a.postal_code));
    lemma_wf_append((((opt_leaf_v("first-name"@, a.first_name) + opt_leaf_v("last-name"@, a.last_name)) + opt_leaf_v("locality"@, a.locality)) + opt_leaf_v("postal-code"@, a.postal_code)), opt_leaf_v("region"@, a.region));
    lemma_wf_append(((((opt_leaf_v("first-name"@, a.first_name) + opt_leaf_v("last-name"@, a.last_name)) + opt_leaf_v("locality"@, a.locality)) + opt_leaf_v("postal-code"@, a.postal_code)) + opt_leaf_v("region"@, a.region)), opt_leaf_v("street-address"@, a.street_address));
    lemma_wf_append(address_front(a), address_back(a));
    assert(wf_elem(address_elem(a, name)));
    lemma_canonical_of_ser(address_elem(a, name));
}

impl Address {
    /// Encodes this address as an element, under `name` or the default
    /// element name. The caller-chosen name is emitted verbatim and must
    /// be a valid element name.
    #[verifier::rlimit(100)]
    pub fn to_element(&self, name: Option<&str>) -> (e: Element)
        ensures
            e@ == address_elem(*self, chosen_name(name, "address"@)),
    {
        let mut e = match name {
            Some(n) => Element::node(n),
            None => Element::node("address"),
        };
        e.push_opt_leaf("company", &self.company);
        e.push_opt_leaf("country-code-alpha2", &self.country_code_alpha2);
        e.push_opt_leaf("country-code-alpha3", &self.country_code_alpha3);
        e.push_opt_leaf("country-code-numeric", &self.country_code_numeric);
        e.push_opt_leaf("country-name", &self.country_name);
        e.push_opt_leaf("extended-address", &self.extended_address);
        proof {
            reveal(address_front);
            assert(Seq::<ElemV>::empty() + opt_leaf_v("company"@, self.company)
                =~= opt_leaf_v("company"@, self.company));
            assert(e@.children =~= address_front(*self));
        }
        e.push_opt_leaf("first-name", &self.first_name);
        e.push_opt_leaf("last-name", &self.last_name);
        e.push_opt_leaf("locality", &self.locality);
        e.push_opt_leaf("postal-code", &self.postal_code);
        e.push_opt_leaf("region", &self.region);
        e.push_opt_leaf("street-address", &self.street_address);
        proof {
            reveal(address_front);
            reveal(address_back);
            assert(Seq::<ElemV>::empty() + opt_leaf_v("company"@, self.company)
                =~= opt_leaf_v("company"@, self.company));
            assert(e@.children =~= address_children(*self));
            assert(e@ =~= address_elem(*self, chosen_name(name, "address"@)));
        }
        e
    }

    /// The serialized markup document for this address.
    pub fn to_xml(&self, name: Option<&str>) -> (s: String)
        ensures
            s@ == ser_elem(address_elem(*self, chosen_name(name, "address"@))),
    {
        self.to_element(name).to_markup()
    }

    /// Decodes an address from an element: each declared field takes the
    /// text of its tag's child where present, and stays absent otherwise.
    pub fn from_element(e: &Element) -> (a: Address)
        ensures
            address_matches(a, e@),
    {
        Address {
            company: match e.find("company") {
                Some(c) => Some(c.text.clone()),
                None => None,
            },
            country_code_alpha2: match e.find("country-code-alpha2") {
                Some(c) => Some(c.text.clone()),
                None => None,
            },
            country_code_alpha3: match e.find("country-code-alpha3") {
                Some(c) => Some(c.text.clone()),
                None => None,
            },
            country_code_numeric: match e.find("country-code-numeric") {
                Some(c) => Some(c.text.clone()),
                None => None,
            },
            country_name: match e.find("country-name") {
                Some(c) => Some(c.text.clone()),
                None => None,
            },
            extended_address: match e.find("extended-address") {
                Some(c) => Some(c.text.clone()),
                None => None,
            },
            first_name: match e.find("first-name") {
                Some(c) => Some(c.text.clone()),
                None => None,
            },
            last_name: match e.find("last-name") {
                Some(c) => Some(c.text.clone()),
                None => None,
            },
            locality: match e.find("locality") {
                Some(c) => Some(c.text.clone()),
                None => None,
            },
            postal_code: match e.find("postal-code") {
                Some(c) => Some(c.text.clone()),
                None => None,
            },
            region: match e.find("region") {
                Some(c) => Some(c.text.clone()),
                None => None,
            },
            street_address: match e.find("street-address") {
                Some(c) => Some(c.text.clone()),
                None => None,
            },
        }
    }
}

} // verus!
