//! The transaction records and their codec: a charge request carrying an
//! amount, an optional card and optional options, and the transaction the
//! gateway reports back.

use vstd::prelude::*;

use crate::credit_card::{credit_card_elem, lemma_credit_card_wf, CreditCard};
use crate::error::Error;
use crate::markup::{canonical_doc, child_text, chosen_name, find_child, find_in, leaf_v,
    lemma_canonical_of_ser, lemma_find_append, lemma_find_opt_leaf, lemma_wf_append,
    is_name_char, lemma_wf_opt_leaf, opt_leaf_v, opt_view, ser_elem, typed_leaf_v, wf_elem, wf_name, Element,
    ElemV};

verus! {

broadcast use vstd::string::group_string_axioms;

/// Options of a charge request.
#[derive(Debug, Default)]
pub struct Options {
    /// Whether the transaction should be submitted for settlement at once.
    pub submit_for_settlement: Option<bool>,
}

/// A request to create a transaction.
#[derive(Debug, Default)]
pub struct Request {
    pub amount: Option<String>,
    pub credit_card: Option<CreditCard>,
    pub options: Option<Options>,
}

/// The text a boolean field is encoded as.
pub open spec fn bool_text(b: bool) -> Seq<char> {
    if b {
        "true"@
    } else {
        "false"@
    }
}

/// The children of an encoded options element: a typed boolean leaf for a
/// present flag, and nothing for an absent one.
pub open spec fn options_children(o: Options) -> Seq<ElemV> {
    match o.submit_for_settlement {
        Some(b) => seq![typed_leaf_v("submit-for-settlement"@, "boolean"@, bool_text(b))],
        None => Seq::empty(),
    }
}

/// The element a request's options are encoded as.
pub open spec fn options_elem(o: Options) -> ElemV {
    ElemV { tag: "options"@, type_attr: None, text: Seq::empty(), children: options_children(o) }
}

/// Zero or one nested card elements, depending on presence.
pub open spec fn opt_card_v(v: Option<CreditCard>) -> Seq<ElemV> {
    match v {
        Some(c) => seq![credit_card_elem(c, "credit-card"@)],
        None => Seq::empty(),
    }
}

/// Zero or one options elements, depending on presence.
pub open spec fn opt_options_v(v: Option<Options>) -> Seq<ElemV> {
    match v {
        Some(o) => seq![options_elem(o)],
        None => Seq::empty(),
    }
}

/// The children of an encoded request, in order.
pub open spec fn request_children(r: Request) -> Seq<ElemV> {
    opt_leaf_v("amount"@, r.amount) + opt_card_v(r.credit_card) + opt_options_v(r.options)
}

/// The element a request is encoded as, under the given name.
pub open spec fn request_elem(r: Request, name: Seq<char>) -> ElemV {
    ElemV { tag: name, type_attr: None, text: Seq::empty(), children: request_children(r) }
}

proof fn lemma_find_opt_card(v: Option<CreditCard>, tag: Seq<char>)
    ensures
        find_in(opt_card_v(v), tag) == (match v {
            Some(c) => if "credit-card"@ == tag {
                Some(credit_card_elem(c, "credit-card"@))
            } else {
                None
            },
            None => None,
        }),
{
    assert(find_in(Seq::<ElemV>::empty(), tag) is None);
    match v {
        Some(c) => {
            assert(opt_card_v(v)[0] == credit_card_elem(c, "credit-card"@));
            assert(opt_card_v(v).skip(1) =~= Seq::<ElemV>::empty());
        },
        None => {
            assert(opt_card_v(v) =~= Seq::<ElemV>::empty());
        },
    }
}

proof fn lemma_find_opt_options(v: Option<Options>, tag: Seq<char>)
    ensures
        find_in(opt_options_v(v), tag) == (match v {
            Some(o) => if "options"@ == tag {
                Some(options_elem(o))
            } else {
                None
            },
            None => None,
        }),
{
    assert(find_in(Seq::<ElemV>::empty(), tag) is None);
    match v {
        Some(o) => {
            assert(opt_options_v(v)[0] == options_elem(o));
            assert(opt_options_v(v).skip(1) =~= Seq::<ElemV>::empty());
        },
        None => {
            assert(opt_options_v(v) =~= Seq::<ElemV>::empty());
        },
    }
}

/// The tags named here are pairwise distinct.
proof fn lemma_transaction_tags_distinct()
    ensures
        "amount"@ != "credit-card"@,
        "amount"@ != "options"@,
        "amount"@ != "submit-for-settlement"@,
        "amount"@ != "boolean"@,
        "amount"@ != "true"@,
        "amount"@ != "false"@,
        "amount"@ != "id"@,
        "amount"@ != "status"@,
        "credit-card"@ != "options"@,
        "credit-card"@ != "submit-for-settlement"@,
        "credit-card"@ != "boolean"@,
        "credit-card"@ != "true"@,
        "credit-card"@ != "false"@,
        "credit-card"@ != "id"@,
        "credit-card"@ != "status"@,
        "options"@ != "submit-for-settlement"@,
        "options"@ != "boolean"@,
        "options"@ != "true"@,
        "options"@ != "false"@,
        "options"@ != "id"@,
        "options"@ != "status"@,
        "submit-for-settlement"@ != "boolean"@,
        "submit-for-settlement"@ != "true"@,
        "submit-for-settlement"@ != "false"@,
        "submit-for-settlement"@ != "id"@,
        "submit-for-settlement"@ != "status"@,
        "boolean"@ != "true"@,
        "boolean"@ != "false"@,
        "boolean"@ != "id"@,
        "boolean"@ != "status"@,
        "true"@ != "false"@,
        "true"@ != "id"@,
        "true"@ != "status"@,
        "false"@ != "id"@,
        "false"@ != "status"@,
        "id"@ != "status"@,
{
    reveal_strlit("amount");
    reveal_strlit("credit-card");
    reveal_strlit("options");
    reveal_strlit("submit-for-settlement");
    reveal_strlit("boolean");
    reveal_strlit("true");
    reveal_strlit("false");
    reveal_strlit("id");
    reveal_strlit("status");
    assert("amount"@.len() == 6);
    assert("credit-card"@.len() == 11);
    assert("options"@.len() == 7);
    assert("submit-for-settlement"@.len() == 21);
    assert("boolean"@.len() == 7);
    assert("true"@.len() == 4);
    assert("false"@.len() == 5);
    assert("id"@.len() == 2);
    assert("status"@.len() == 6);
    assert("amount"@[0] == 'a');
    assert("status"@[0] == 's');
    assert("options"@[0] == 'o');
    assert("boolean"@[0] == 'b');
    assert("amount"@ != "credit-card"@);
    assert("amount"@ != "options"@);
    assert("amount"@ != "submit-for-settlement"@);
    assert("amount"@ != "boolean"@);
    assert("amount"@ != "true"@);
    assert("amount"@ != "false"@);
    assert("amount"@ != "id"@);
    assert("amount"@ != "status"@);
    assert("credit-card"@ != "options"@);
    assert("credit-card"@ != "submit-for-settlement"@);
    assert("credit-card"@ != "boolean"@);
    assert("credit-card"@ != "true"@);
    assert("credit-card"@ != "false"@);
    assert("credit-card"@ != "id"@);
    assert("credit-card"@ != "status"@);
    assert("options"@ != "submit-for-settlement"@);
    assert("options"@ != "boolean"@);
    assert("options"@ != "true"@);
    assert("options"@ != "false"@);
    assert("options"@ != "id"@);
    assert("options"@ != "status"@);
    assert("submit-for-settlement"@ != "boolean"@);
    assert("submit-for-settlement"@ != "true"@);
    assert("submit-for-settlement"@ != "false"@);
    assert("submit-for-settlement"@ != "id"@);
    assert("submit-for-settlement"@ != "status"@);
    assert("boolean"@ != "true"@);
    assert("boolean"@ != "false"@);
    assert("boolean"@ != "id"@);
    assert("boolean"@ != "status"@);
    assert("true"@ != "false"@);
    assert("true"@ != "id"@);
    assert("true"@ != "status"@);
    assert("false"@ != "id"@);
    assert("false"@ != "status"@);
    assert("id"@ != "status"@);
}

proof fn lemma_request_find(r: Request, tag: Seq<char>)
    ensures
        find_in(request_children(r), tag) == (if tag == "amount"@ {
            match r.amount {
                Some(s) => Some(leaf_v("amount"@, s@)),
                None => None,
            }
        } else if tag == "credit-card"@ {
            match r.credit_card {
                Some(c) => Some(credit_card_elem(c, "credit-card"@)),
                None => None,
            }
        } else if tag == "options"@ {
            match r.options {
                Some(o) => Some(options_elem(o)),
                None => None,
            }
        } else {
            None
        }),
{
    lemma_transaction_tags_distinct();
    lemma_find_opt_leaf("amount"@, r.amount, tag);
    lemma_find_opt_card(r.credit_card, tag);
    lemma_find_opt_options(r.options, tag);
    lemma_find_append(opt_leaf_v("amount"@, r.amount), opt_card_v(r.credit_card), tag);
    lemma_find_append((opt_leaf_v("amount"@, r.amount) + opt_card_v(r.credit_card)),
        opt_options_v(r.options), tag);
}

/// Law: an encoded request exposes exactly its declared fields: a present
/// amount round-trips as text, a present card and present options each
/// become one nested element, and absent fields leave no child.
pub proof fn lemma_request_round_trip(r: Request, name: Seq<char>)
    ensures
        child_text(request_elem(r, name), "amount"@) == opt_view(r.amount),
        find_child(request_elem(r, name), "credit-card"@) == (match r.credit_card {
            Some(c) => Some(credit_card_elem(c, "credit-card"@)),
            None => None,
        }),
        find_child(request_elem(r, name), "options"@) == (match r.options {
            Some(o) => Some(options_elem(o)),
            None => None,
        }),
{
    lemma_transaction_tags_distinct();
    lemma_request_find(r, "amount"@);
    lemma_request_find(r, "credit-card"@);
    lemma_request_find(r, "options"@);
}

/// An encoded request is a canonical element whenever its element name is
/// a valid name, so its serialized document parses back to exactly it.
pub proof fn lemma_transaction_request_wf(r: Request, name: Seq<char>)
    requires
        wf_name(name),
    ensures
        wf_elem(request_elem(r, name)),
        canonical_doc(ser_elem(request_elem(r, name))) == Some(request_elem(r, name)),
{
    reveal_strlit("amount");
    reveal_strlit("credit-card");
    reveal_strlit("options");
    reveal_strlit("submit-for-settlement");
    reveal_strlit("boolean");
    assert(wf_name("amount"@) && wf_name("credit-card"@) && wf_name("options"@) && wf_name(
        "submit-for-settlement"@,
    ));
    assert(forall|i: int| 0 <= i < "boolean"@.len() ==> is_name_char(#[trigger] "boolean"@[i]));
    lemma_wf_opt_leaf("amount"@, r.amount);
    assert forall|i: int| 0 <= i < opt_card_v(r.credit_card).len() implies wf_elem(
        #[trigger] opt_card_v(r.credit_card)[i],
    ) by {
        match r.credit_card {
            Some(cc) => {
                lemma_credit_card_wf(cc, "credit-card"@);
                assert(opt_card_v(r.credit_card)[0] == credit_card_elem(cc, "credit-card"@));
            },
            None => {},
        }
    }
    assert forall|i: int| 0 <= i < opt_options_v(r.options).len() implies wf_elem(
        #[trigger] opt_options_v(r.options)[i],
    ) by {
        match r.options {
            Some(o) => {
                assert(wf_elem(options_elem(o))) by {
                    match o.submit_for_settlement {
                        Some(b) => {
                            assert(wf_elem(typed_leaf_v("submit-for-settlement"@, "boolean"@,
                                bool_text(b))));
                            assert forall|k: int| 0 <= k < options_children(o).len() implies
                                wf_elem(#[trigger] options_children(o)[k]) by {
                                assert(options_children(o)[k] == typed_leaf_v(
                                    "submit-for-settlement"@,
                                    "boolean"@,
                                    bool_text(b),
                                ));
                            }
                        },
                        None => {
                            assert(options_children(o) =~= Seq::<ElemV>::empty());
                        },
                    }
                }
                assert(opt_options_v(r.options)[0] == options_elem(o));
            },
            None => {},
        }
    }
    lemma_wf_append(opt_leaf_v("amount"@, r.amount), opt_card_v(r.credit_card));
    lemma_wf_append((opt_leaf_v("amount"@, r.amount) + opt_card_v(r.credit_card)), opt_options_v(
        r.options,
    ));
    assert(wf_elem(request_elem(r, name)));
    lemma_canonical_of_ser(request_elem(r, name));
}

impl Options {
    /// Encodes these options as their element.
    pub fn to_element(&self) -> (e: Element)
        ensures
            e@ == options_elem(*self),
    {
        let mut e = Element::node("options");
        match &self.submit_for_settlement {
            Some(b) => {
                let text = if *b {
                    "true"
                } else {
                    "false"
                };
                e.push_child(Element::typed_leaf("submit-for-settlement", "boolean", text));
                proof {
                    assert(Seq::<ElemV>::empty().push(typed_leaf_v("submit-for-settlement"@,
                        "boolean"@, bool_text(*b))) =~= options_children(*self));
                }
            },
            None => {
                proof {
                    assert(Seq::<ElemV>::empty() =~= options_children(*self));
                }
            },
        }
        proof {
            assert(e@ =~= options_elem(*self));
        }
        e
    }
}

impl Request {
    /// Encodes this request as an element, under `name` or the default
    /// element name. The caller-chosen name is emitted verbatim and must
    /// be a valid element name.
    pub fn to_element(&self, name: Option<&str>) -> (e: Element)
        ensures
            e@ == request_elem(*self, chosen_name(name, "transaction"@)),
    {
        let mut e = match name {
            Some(n) => Element::node(n),
            None => Element::node("transaction"),
        };
        e.push_opt_leaf("amount", &self.amount);
        match &self.credit_card {
            Some(c) => {
                e.push_child(c.to_element(Some("credit-card")));
            },
            None => {
            },
        }
        match &self.options {
            Some(o) => {
                e.push_child(o.to_element());
            },
            None => {
            },
        }
        proof {
            assert(Seq::<ElemV>::empty() + opt_leaf_v("amount"@, self.amount)
                =~= opt_leaf_v("amount"@, self.amount));
            assert(e@.children =~= request_children(*self));
            assert(e@ =~= request_elem(*self, chosen_name(name, "transaction"@)));
        }
        e
    }

    /// The serialized markup document for this request.
    pub fn to_xml(&self, name: Option<&str>) -> (s: String)
        ensures
            s@ == ser_elem(request_elem(*self, chosen_name(name, "transaction"@))),
    {
        self.to_element(name).to_markup()
    }
}

/// A transaction as the gateway reports it; every field is required.
#[derive(Debug)]
pub struct Transaction {
    /// The server-assigned transaction identifier.
    pub id: String,
    pub amount: String,
    pub status: String,
}

/// Whether an element carries every field the transaction codec declares.
pub open spec fn transaction_decodable(e: ElemV) -> bool {
    &&& child_text(e, "id"@) is Some
    &&& child_text(e, "amount"@) is Some
    &&& child_text(e, "status"@) is Some
}

impl Transaction {
    /// Decodes a transaction from an element, requiring every declared
    /// field.
    pub fn from_element(e: &Element) -> (r: Result<Transaction, Error>)
        ensures
            match r {
                Ok(t) => {
                    &&& transaction_decodable(e@)
                    &&& Some(t.id@) == child_text(e@, "id"@)
                    &&& Some(t.amount@) == child_text(e@, "amount"@)
                    &&& Some(t.status@) == child_text(e@, "status"@)
                },
                Err(err) => {
                    &&& !transaction_decodable(e@)
                    &&& err matches Error::MissingField(t) && child_text(e@, t@) is None
                },
            },
    {
        let id = match e.find("id") {
            Some(c) => c.text.clone(),
            None => {
                return Err(Error::MissingField("id".to_owned()));
            },
        };
        let amount = match e.find("amount") {
            Some(c) => c.text.clone(),
            None => {
                return Err(Error::MissingField("amount".to_owned()));
            },
        };
        let status = match e.find("status") {
            Some(c) => c.text.clone(),
            None => {
                return Err(Error::MissingField("status".to_owned()));
            },
        };
        Ok(Transaction { id, amount, status })
    }
}

} // verus!
