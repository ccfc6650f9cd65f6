//! Reading the list of models out of a provider's answer.

use crate::error::{ClientError, Operation, is_success, status_is_success};
use crate::json::{Json, parse_document, json_document};
use vstd::prelude::*;
use vstd::string::*;

verus! {

/// The identifier that an entry of a `data` list gives: its string `id`,
/// else its string `name`.
pub open spec fn entry_model(entry: Json) -> Option<Seq<char>> {
    if entry.field_text("id"@) is Some {
        entry.field_text("id"@)
    } else {
        entry.field_text("name"@)
    }
}

/// The identifiers of the first `n` entries of a `data` list, in order;
/// entries that give none are left out.
pub open spec fn data_models(entries: Seq<Json>, n: nat) -> Seq<Seq<char>>
    decreases n,
{
    if n == 0 || n > entries.len() {
        Seq::empty()
    } else {
        match entry_model(entries[n - 1]) {
            Some(id) => data_models(entries, (n - 1) as nat).push(id),
            None => data_models(entries, (n - 1) as nat),
        }
    }
}

/// The strings among the first `n` items of a bare list, in order.
pub open spec fn listed_models(items: Seq<Json>, n: nat) -> Seq<Seq<char>>
    decreases n,
{
    if n == 0 || n > items.len() {
        Seq::empty()
    } else {
        match items[n - 1].text() {
            Some(id) => listed_models(items, (n - 1) as nat).push(id),
            None => listed_models(items, (n - 1) as nat),
        }
    }
}

/// The list under the member `data`, if the document has one.
pub open spec fn data_list(doc: Json) -> Option<Seq<Json>> {
    match doc.field("data"@) {
        Some(data) => data.items(),
        None => None,
    }
}

/// The model identifiers that a document lists. A document of neither known
/// shape lists none.
pub open spec fn model_ids(doc: Json) -> Seq<Seq<char>> {
    if data_list(doc) is Some {
        data_models(data_list(doc)->Some_0, data_list(doc)->Some_0.len())
    } else if doc.items() is Some {
        listed_models(doc.items()->Some_0, doc.items()->Some_0.len())
    } else {
        Seq::empty()
    }
}

/// A bare list that holds only strings is returned whole and in order.
pub proof fn lemma_list_of_strings_is_kept(items: Seq<Json>, n: nat)
    requires
        n <= items.len(),
        forall|i: int| 0 <= i < n ==> (#[trigger] items[i]).text() is Some,
    ensures
        listed_models(items, n).len() == n,
        forall|i: int| 0 <= i < n ==> Some(#[trigger] listed_models(items, n)[i]) == items[i].text(),
    decreases n,
{
    if n > 0 {
        lemma_list_of_strings_is_kept(items, (n - 1) as nat);
    }
}

/// No more models are listed than the document has entries, whatever its
/// shape.
pub proof fn lemma_models_are_bounded(entries: Seq<Json>, n: nat)
    ensures
        data_models(entries, n).len() <= n,
        listed_models(entries, n).len() <= n,
    decreases n,
{
    if n > 0 {
        lemma_models_are_bounded(entries, (n - 1) as nat);
    }
}

/// The characters of each string of `names`.
pub open spec fn texts(names: Seq<String>) -> Seq<Seq<char>> {
    Seq::new(names.len(), |i: int| names[i]@)
}

/// Collects the model identifiers of `doc`, in the order in which it lists
/// them and without removing duplicates.
pub fn extract_models(doc: &Json) -> (models: Vec<String>)
    ensures
        texts(models@) == model_ids(*doc),
{
    let mut models: Vec<String> = Vec::new();
    let data = match doc.get("data") {
        Some(d) => d.as_array(),
        None => None,
    };
    if let Some(entries) = data {
        assert(data_list(*doc) == Some(entries@));
        let mut i: usize = 0;
        while i < entries.len()
            invariant
                i <= entries@.len(),
                texts(models@) == data_models(entries@, i as nat),
            decreases entries@.len() - i,
        {
            let ghost before = models@;
            if let Some(id) = entries[i].get_str("id") {
                models.push(String::from_str(id));
                assert(texts(models@) =~= texts(before).push(id@));
            } else if let Some(name) = entries[i].get_str("name") {
                models.push(String::from_str(name));
                assert(texts(models@) =~= texts(before).push(name@));
            }
            i = i + 1;
        }
    } else if let Some(items) = doc.as_array() {
        let mut i: usize = 0;
        while i < items.len()
            invariant
                i <= items@.len(),
                texts(models@) == listed_models(items@, i as nat),
            decreases items@.len() - i,
        {
            let ghost before = models@;
            if let Some(id) = items[i].as_str() {
                models.push(String::from_str(id));
                assert(texts(models@) =~= texts(before).push(id@));
            }
            i = i + 1;
        }
    } else {
        assert(texts(models@) =~= Seq::empty());
    }
    models
}

/// What a model listing answered with `status` and `body` amounts to.
pub open spec fn models_outcome_is(
    outcome: Result<Vec<String>, ClientError>,
    status: u16,
    body: Seq<char>,
    doc: Option<Json>,
) -> bool {
    if !is_success(status) {
        outcome is Err && outcome->Err_0.is_api_failure(Operation::ModelListing, status, body)
    } else if doc is None {
        outcome is Err && outcome->Err_0.is_shape_mismatch(Operation::ModelListing)
    } else {
        outcome is Ok && texts(outcome->Ok_0@) == model_ids(doc->Some_0)
    }
}

/// Turns a parsed answer to a model listing into the list of models, or into
/// the failure that the status reports.
pub fn models_from_response(status: u16, body: &str, doc: Option<Json>) -> (outcome: Result<
    Vec<String>,
    ClientError,
>)
    ensures
        models_outcome_is(outcome, status, body@, doc),
{
    if !status_is_success(status) {
        return Err(ClientError::ApiFailure { operation: Operation::ModelListing, status, message: String::from_str(body), service_message: false });
    }
    match doc {
        Some(d) => Ok(extract_models(&d)),
        None => Err(ClientError::ResponseShapeMismatch { operation: Operation::ModelListing }),
    }
}

/// Interprets the answer to a model listing: its status and its body.
pub fn interpret_models_response(status: u16, body: &str) -> (outcome: Result<
    Vec<String>,
    ClientError,
>)
    ensures
        models_outcome_is(outcome, status, body@, json_document(body@)),
{
    if !status_is_success(status) {
        return Err(ClientError::ApiFailure { operation: Operation::ModelListing, status, message: String::from_str(body), service_message: false });
    }
    models_from_response(status, body, parse_document(body))
}

} // verus!
