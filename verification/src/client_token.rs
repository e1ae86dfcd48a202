//! The client-token records and their codec: a request for a new client
//! token, and the token the gateway returns.

use vstd::prelude::*;

use crate::error::Error;
use crate::markup::{canonical_doc, child_text, chosen_name, lemma_canonical_of_ser,
    lemma_find_opt_leaf, lemma_wf_opt_leaf, opt_leaf_v, opt_view, ser_elem, wf_elem, wf_name,
    Element, ElemV};

verus! {

broadcast use vstd::string::group_string_axioms;

/// A request to generate a client token.
#[derive(Debug, Default)]
pub struct Request {
    /// The customer the token should be scoped to, if any.
    pub customer_id: Option<String>,
}

/// The children of an encoded request.
pub open spec fn request_children(r: Request) -> Seq<ElemV> {
    opt_leaf_v("customer-id"@, r.customer_id)
}

/// The element a request is encoded as, under the given name.
pub open spec fn request_elem(r: Request, name: Seq<char>) -> ElemV {
    ElemV { tag: name, type_attr: None, text: Seq::empty(), children: request_children(r) }
}

/// Law: an encoded request exposes exactly its declared field: a present
/// customer identifier round-trips, an absent one leaves no element.
pub proof fn lemma_request_round_trip(r: Request, name: Seq<char>)
    ensures
        child_text(request_elem(r, name), "customer-id"@) == opt_view(r.customer_id),
{
    lemma_find_opt_leaf("customer-id"@, r.customer_id, "customer-id"@);
}

/// An encoded request is a canonical element whenever its element name is
/// a valid name, so its serialized document parses back to exactly it.
pub proof fn lemma_client_token_request_wf(r: Request, name: Seq<char>)
    requires
        wf_name(name),
    ensures
        wf_elem(request_elem(r, name)),
        canonical_doc(ser_elem(request_elem(r, name))) == Some(request_elem(r, name)),
{
    reveal_strlit("customer-id");
    assert(wf_name("customer-id"@));
    lemma_wf_opt_leaf("customer-id"@, r.customer_id);
    assert(wf_elem(request_elem(r, name)));
    lemma_canonical_of_ser(request_elem(r, name));
}

impl Request {
    /// Encodes this request as an element, under `name` or the default
    /// element name. The caller-chosen name is emitted verbatim and must
    /// be a valid element name.
    pub fn to_element(&self, name: Option<&str>) -> (e: Element)
        ensures
            e@ == request_elem(*self, chosen_name(name, "client-token"@)),
    {
        let mut e = match name {
            Some(n) => Element::node(n),
            None => Element::node("client-token"),
        };
        e.push_opt_leaf("customer-id", &self.customer_id);
        proof {
            assert(Seq::<ElemV>::empty() + opt_leaf_v("customer-id"@, self.customer_id)
                =~= opt_leaf_v("customer-id"@, self.customer_id));
            assert(e@.children =~= request_children(*self));
            assert(e@ =~= request_elem(*self, chosen_name(name, "client-token"@)));
        }
        e
    }

    /// The serialized markup document for this request.
    pub fn to_xml(&self, name: Option<&str>) -> (s: String)
        ensures
            s@ == ser_elem(request_elem(*self, chosen_name(name, "client-token"@))),
    {
        self.to_element(name).to_markup()
    }
}

/// A client token as the gateway returns it.
#[derive(Debug)]
pub struct ClientToken {
    /// The value of the client token.
    pub value: String,
}

/// Whether an element carries the field the client-token codec declares.
pub open spec fn client_token_decodable(e: ElemV) -> bool {
    child_text(e, "value"@) is Some
}

impl ClientToken {
    /// Decodes a client token from an element, requiring its one field.
    pub fn from_element(e: &Element) -> (r: Result<ClientToken, Error>)
        ensures
            match r {
                Ok(t) => client_token_decodable(e@) && Some(t.value@) == child_text(e@, "value"@),
                Err(err) => {
                    &&& !client_token_decodable(e@)
                    &&& err matches Error::MissingField(t) && child_text(e@, t@) is None
                },
            },
    {
        let value = match e.find("value") {
            Some(c) => c.text.clone(),
            None => {
                return Err(Error::MissingField("value".to_owned()));
            },
        };
        Ok(ClientToken { value })
    }
}

} // verus!
