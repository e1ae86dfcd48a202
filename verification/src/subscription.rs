//! The subscription records and their codec: the request encodes its two
//! optional fields and a fixed options element asking for an immediate
//! start; the reported subscription reads each declared field back
//! optionally, so the fields declared on both sides round-trip.

use vstd::prelude::*;

use crate::markup::{canonical_doc, child_text, chosen_name, find_child, find_in, leaf_v,
    lemma_canonical_of_ser, lemma_find_append, lemma_find_opt_leaf, lemma_wf_append,
    is_name_char, lemma_wf_opt_leaf, opt_leaf_v, opt_view, ser_elem, typed_leaf_v, wf_elem, wf_name, Element,
    ElemV};

verus! {

broadcast use vstd::string::group_string_axioms;

/// A request to create a subscription.
#[derive(Debug, Default)]
pub struct Request {
    /// The plan identifier; plans are configured on the gateway side.
    pub plan_id: Option<String>,
    /// The stored payment method the subscription should charge.
    pub payment_method_token: Option<String>,
}

/// The fixed options element every encoded request carries: the
/// subscription starts immediately.
pub open spec fn request_options_elem() -> ElemV {
    ElemV {
        tag: "options"@,
        type_attr: None,
        text: Seq::empty(),
        children: seq![typed_leaf_v("start-immediately"@, "boolean"@, "true"@)],
    }
}

/// The children of an encoded request, in order.
pub open spec fn request_children(r: Request) -> Seq<ElemV> {
    opt_leaf_v("plan-id"@, r.plan_id) + opt_leaf_v("payment-method-token"@, r.payment_method_token)
        + seq![request_options_elem()]
}

/// The element a request is encoded as, under the given name.
pub open spec fn request_elem(r: Request, name: Seq<char>) -> ElemV {
    ElemV { tag: name, type_attr: None, text: Seq::empty(), children: request_children(r) }
}

/// The tags named here are pairwise distinct.
proof fn lemma_subscription_tags_distinct()
    ensures
        "plan-id"@ != "payment-method-token"@,
        "plan-id"@ != "options"@,
        "plan-id"@ != "start-immediately"@,
        "plan-id"@ != "boolean"@,
        "plan-id"@ != "true"@,
        "plan-id"@ != "id"@,
        "plan-id"@ != "status"@,
        "plan-id"@ != "billing-period-start-date"@,
        "plan-id"@ != "billing-period-end-date"@,
        "plan-id"@ != "created-at"@,
        "payment-method-token"@ != "options"@,
        "payment-method-token"@ != "start-immediately"@,
        "payment-method-token"@ != "boolean"@,
        "payment-method-token"@ != "true"@,
        "payment-method-token"@ != "id"@,
        "payment-method-token"@ != "status"@,
        "payment-method-token"@ != "billing-period-start-date"@,
        "payment-method-token"@ != "billing-period-end-date"@,
        "payment-method-token"@ != "created-at"@,
        "options"@ != "start-immediately"@,
        "options"@ != "boolean"@,
        "options"@ != "true"@,
        "options"@ != "id"@,
        "options"@ != "status"@,
        "options"@ != "billing-period-start-date"@,
        "options"@ != "billing-period-end-date"@,
        "options"@ != "created-at"@,
        "start-immediately"@ != "boolean"@,
        "start-immediately"@ != "true"@,
        "start-immediately"@ != "id"@,
        "start-immediately"@ != "status"@,
        "start-immediately"@ != "billing-period-start-date"@,
        "start-immediately"@ != "billing-period-end-date"@,
        "start-immediately"@ != "created-at"@,
        "boolean"@ != "true"@,
        "boolean"@ != "id"@,
        "boolean"@ != "status"@,
        "boolean"@ != "billing-period-start-date"@,
        "boolean"@ != "billing-period-end-date"@,
        "boolean"@ != "created-at"@,
        "true"@ != "id"@,
        "true"@ != "status"@,
        "true"@ != "billing-period-start-date"@,
        "true"@ != "billing-period-end-date"@,
        "true"@ != "created-at"@,
        "id"@ != "status"@,
        "id"@ != "billing-period-start-date"@,
        "id"@ != "billing-period-end-date"@,
        "id"@ != "created-at"@,
        "status"@ != "billing-period-start-date"@,
        "status"@ != "billing-period-end-date"@,
        "status"@ != "created-at"@,
        "billing-period-start-date"@ != "billing-period-end-date"@,
        "billing-period-start-date"@ != "created-at"@,
        "billing-period-end-date"@ != "created-at"@,
{
    reveal_strlit("plan-id");
    reveal_strlit("payment-method-token");
    reveal_strlit("options");
    reveal_strlit("start-immediately");
    reveal_strlit("boolean");
    reveal_strlit("true");
    reveal_strlit("id");
    reveal_strlit("status");
    reveal_strlit("billing-period-start-date");
    reveal_strlit("billing-period-end-date");
    reveal_strlit("created-at");
    assert("plan-id"@.len() == 7);
    assert("payment-method-token"@.len() == 20);
    assert("options"@.len() == 7);
    assert("start-immediately"@.len() == 17);
    assert("boolean"@.len() == 7);
    assert("true"@.len() == 4);
    assert("id"@.len() == 2);
    assert("status"@.len() == 6);
    assert("billing-period-start-date"@.len() == 25);
    assert("billing-period-end-date"@.len() == 23);
    assert("created-at"@.len() == 10);
    assert("plan-id"@[0] == 'p');
    assert("options"@[0] == 'o');
    assert("plan-id"@[0] == 'p');
    assert("boolean"@[0] == 'b');
    assert("options"@[0] == 'o');
    assert("boolean"@[0] == 'b');
    assert("plan-id"@ != "payment-method-token"@);
    assert("plan-id"@ != "options"@);
    assert("plan-id"@ != "start-immediately"@);
    assert("plan-id"@ != "boolean"@);
    assert("plan-id"@ != "true"@);
    assert("plan-id"@ != "id"@);
    assert("plan-id"@ != "status"@);
    assert("plan-id"@ != "billing-period-start-date"@);
    assert("plan-id"@ != "billing-period-end-date"@);
    assert("plan-id"@ != "created-at"@);
    assert("payment-method-token"@ != "options"@);
    assert("payment-method-token"@ != "start-immediately"@);
    assert("payment-method-token"@ != "boolean"@);
    assert("payment-method-token"@ != "true"@);
    assert("payment-method-token"@ != "id"@);
    assert("payment-method-token"@ != "status"@);
    assert("payment-method-token"@ != "billing-period-start-date"@);
    assert("payment-method-token"@ != "billing-period-end-date"@);
    assert("payment-method-token"@ != "created-at"@);
    assert("options"@ != "start-immediately"@);
    assert("options"@ != "boolean"@);
    assert("options"@ != "true"@);
    assert("options"@ != "id"@);
    assert("options"@ != "status"@);
    assert("options"@ != "billing-period-start-date"@);
    assert("options"@ != "billing-period-end-date"@);
    assert("options"@ != "created-at"@);
    assert("start-immediately"@ != "boolean"@);
    assert("start-immediately"@ != "true"@);
    assert("start-immediately"@ != "id"@);
    assert("start-immediately"@ != "status"@);
    assert("start-immediately"@ != "billing-period-start-date"@);
    assert("start-immediately"@ != "billing-period-end-date"@);
    assert("start-immediately"@ != "created-at"@);
    assert("boolean"@ != "true"@);
    assert("boolean"@ != "id"@);
    assert("boolean"@ != "status"@);
    assert("boolean"@ != "billing-period-start-date"@);
    assert("boolean"@ != "billing-period-end-date"@);
    assert("boolean"@ != "created-at"@);
    assert("true"@ != "id"@);
    assert("true"@ != "status"@);
    assert("true"@ != "billing-period-start-date"@);
    assert("true"@ != "billing-period-end-date"@);
    assert("true"@ != "created-at"@);
    assert("id"@ != "status"@);
    assert("id"@ != "billing-period-start-date"@);
    assert("id"@ != "billing-period-end-date"@);
    assert("id"@ != "created-at"@);
    assert("status"@ != "billing-period-start-date"@);
    assert("status"@ != "billing-period-end-date"@);
    assert("status"@ != "created-at"@);
    assert("billing-period-start-date"@ != "billing-period-end-date"@);
    assert("billing-period-start-date"@ != "created-at"@);
    assert("billing-period-end-date"@ != "created-at"@);
}

proof fn lemma_request_find(r: Request, tag: Seq<char>)
    ensures
        find_in(request_children(r), tag) == (if tag == "plan-id"@ {
            match r.plan_id {
                Some(s) => Some(leaf_v("plan-id"@, s@)),
                None => None,
            }
        } else if tag == "payment-method-token"@ {
            match r.payment_method_token {
                Some(s) => Some(leaf_v("payment-method-token"@, s@)),
                None => None,
            }
        } else if tag == "options"@ {
            Some(request_options_elem())
        } else {
            None
        }),
{
    lemma_subscription_tags_distinct();
    lemma_find_opt_leaf("plan-id"@, r.plan_id, tag);
    lemma_find_opt_leaf("payment-method-token"@, r.payment_method_token, tag);
    assert(find_in(seq![request_options_elem()], tag) == (if tag == "options"@ {
        Some(request_options_elem())
    } else {
        None
    })) by {
        assert(seq![request_options_elem()][0] == request_options_elem());
        assert(seq![request_options_elem()].skip(1) =~= Seq::<ElemV>::empty());
        assert(find_in(Seq::<ElemV>::empty(), tag) is None);
    }
    lemma_find_append(opt_leaf_v("plan-id"@, r.plan_id),
        opt_leaf_v("payment-method-token"@, r.payment_method_token), tag);
    lemma_find_append((opt_leaf_v("plan-id"@, r.plan_id)
        + opt_leaf_v("payment-method-token"@, r.payment_method_token)),
        seq![request_options_elem()], tag);
}

/// Law: an encoded request exposes exactly its declared fields, always
/// carries the options element that asks for an immediate start, and
/// carries none of the server-assigned response fields, so decoding it
/// gives back the declared field values and leaves the rest absent.
pub proof fn lemma_request_round_trip(r: Request, name: Seq<char>)
    ensures
        child_text(request_elem(r, name), "plan-id"@) == opt_view(r.plan_id),
        child_text(request_elem(r, name), "payment-method-token"@)
            == opt_view(r.payment_method_token),
        find_child(request_elem(r, name), "options"@) == Some(request_options_elem()),
        child_text(request_elem(r, name), "id"@) is None,
        child_text(request_elem(r, name), "status"@) is None,
        child_text(request_elem(r, name), "billing-period-start-date"@) is None,
        child_text(request_elem(r, name), "billing-period-end-date"@) is None,
        child_text(request_elem(r, name), "created-at"@) is None,
{
    lemma_subscription_tags_distinct();
    lemma_request_find(r, "plan-id"@);
    lemma_request_find(r, "payment-method-token"@);
    lemma_request_find(r, "options"@);
    lemma_request_find(r, "id"@);
    lemma_request_find(r, "status"@);
    lemma_request_find(r, "billing-period-start-date"@);
    lemma_request_find(r, "billing-period-end-date"@);
    lemma_request_find(r, "created-at"@);
}

/// An encoded request is a canonical element whenever its element name is
/// a valid name, so its serialized document parses back to exactly it.
pub proof fn lemma_request_wf(r: Request, name: Seq<char>)
    requires
        wf_name(name),
    ensures
        wf_elem(request_elem(r, name)),
        canonical_doc(ser_elem(request_elem(r, name))) == Some(request_elem(r, name)),
{
    reveal_strlit("plan-id");
    reveal_strlit("payment-method-token");
    reveal_strlit("options");
    reveal_strlit("start-immediately");
    reveal_strlit("boolean");
    assert(wf_name("plan-id"@) && wf_name("payment-method-token"@) && wf_name("options"@)
        && wf_name("start-immediately"@));
    assert(forall|i: int| 0 <= i < "boolean"@.len() ==> is_name_char(#[trigger] "boolean"@[i]));
    lemma_wf_opt_leaf("plan-id"@, r.plan_id);
    lemma_wf_opt_leaf("payment-method-token"@, r.payment_method_token);
    assert(wf_elem(typed_leaf_v("start-immediately"@, "boolean"@, "true"@)));
    assert(wf_elem(request_options_elem())) by {
        assert(request_options_elem().children[0] == typed_leaf_v("start-immediately"@,
            "boolean"@, "true"@));
    }
    assert forall|i: int| 0 <= i < seq![request_options_elem()].len() implies wf_elem(
        #[trigger] seq![request_options_elem()][i],
    ) by {
        assert(seq![request_options_elem()][i] == request_options_elem());
    }
    lemma_wf_append(opt_leaf_v("plan-id"@, r.plan_id), opt_leaf_v("payment-method-token"@,
        r.payment_method_token));
    lemma_wf_append((opt_leaf_v("plan-id"@, r.plan_id) + opt_leaf_v("payment-method-token"@,
        r.payment_method_token)), seq![request_options_elem()]);
    assert(wf_elem(request_elem(r, name)));
    lemma_canonical_of_ser(request_elem(r, name));
}

impl Request {
    /// Encodes this request as an element, under `name` or the default
    /// element name. The caller-chosen name is emitted verbatim and must
    /// be a valid element name.
    pub fn to_element(&self, name: Option<&str>) -> (e: Element)
        ensures
            e@ == request_elem(*self, chosen_name(name, "subscription"@)),
    {
        let mut e = match name {
            Some(n) => Element::node(n),
            None => Element::node("subscription"),
        };
        e.push_opt_leaf("plan-id", &self.plan_id);
        e.push_opt_leaf("payment-method-token", &self.payment_method_token);
        let mut options = Element::node("options");
        options.push_child(Element::typed_leaf("start-immediately", "boolean", "true"));
        e.push_child(options);
        proof {
            assert(Seq::<ElemV>::empty() + opt_leaf_v("plan-id"@, self.plan_id)
                =~= opt_leaf_v("plan-id"@, self.plan_id));
            assert(Seq::<ElemV>::empty().push(typed_leaf_v("start-immediately"@, "boolean"@,
                "true"@)) =~= seq![typed_leaf_v("start-immediately"@, "boolean"@, "true"@)]);
            assert(e@.children =~= request_children(*self));
            assert(e@ =~= request_elem(*self, chosen_name(name, "subscription"@)));
        }
        e
    }

    /// The serialized markup document for this request.
    pub fn to_xml(&self, name: Option<&str>) -> (s: String)
        ensures
            s@ == ser_elem(request_elem(*self, chosen_name(name, "subscription"@))),
    {
        self.to_element(name).to_markup()
    }
}

/// A subscription as the gateway reports it; each field is present
/// exactly when the document carries its element.
#[derive(Debug, Default)]
pub struct Subscription {
    pub id: Option<String>,
    pub plan_id: Option<String>,
    pub payment_method_token: Option<String>,
    pub status: Option<String>,
    pub billing_period_start_date: Option<String>,
    pub billing_period_end_date: Option<String>,
    pub created_at: Option<String>,
}

/// Whether a record holds, field for field, exactly what the element
/// offers: each declared tag's child text where present, absence where
/// the element has no such child.
pub open spec fn subscription_matches(s: Subscription, e: ElemV) -> bool {
    &&& opt_view(s.id) == child_text(e, "id"@)
    &&& opt_view(s.plan_id) == child_text(e, "plan-id"@)
    &&& opt_view(s.payment_method_token) == child_text(e, "payment-method-token"@)
    &&& opt_view(s.status) == child_text(e, "status"@)
    &&& opt_view(s.billing_period_start_date) == child_text(e, "billing-period-start-date"@)
    &&& opt_view(s.billing_period_end_date) == child_text(e, "billing-period-end-date"@)
    &&& opt_view(s.created_at) == child_text(e, "created-at"@)
}

impl Subscription {
    /// Decodes a subscription from an element: each declared field takes
    /// the text of its tag's child where present, and stays absent
    /// otherwise.
    pub fn from_element(e: &Element) -> (s: Subscription)
        ensures
            subscription_matches(s, e@),
    {
        Subscription {
            id: match e.find("id") {
                Some(ch) => Some(ch.text.clone()),
                None => None,
            },
            plan_id: match e.find("plan-id") {
                Some(ch) => Some(ch.text.clone()),
                None => None,
            },
            payment_method_token: match e.find("payment-method-token") {
                Some(ch) => Some(ch.text.clone()),
                None => None,
            },
            status: match e.find("status") {
                Some(ch) => Some(ch.text.clone()),
                None => None,
            },
            billing_period_start_date: match e.find("billing-period-start-date") {
                Some(ch) => Some(ch.text.clone()),
                None => None,
            },
            billing_period_end_date: match e.find("billing-period-end-date") {
                Some(ch) => Some(ch.text.clone()),
                None => None,
            },
            created_at: match e.find("created-at") {
                Some(ch) => Some(ch.text.clone()),
                None => None,
            },
        }
    }
}

} // verus!
