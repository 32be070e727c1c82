//! The log history: the lines that the service recorded, fetched in one piece.

use vstd::prelude::*;
use vstd::string::*;
use crate::envelope::{
    raw_envelope_model, required_payload, ApiError, ApiErrorView, ApiResponse, EnvelopeModel,
};
use crate::json::{
    array_member, get_array, json_model, json_text, value_as_str, value_clone, value_text,
    JsonModel,
};
use crate::text::owned;

verus! {

/// One entry of the log history: a line of text, or any other JSON value.
#[derive(Debug)]
pub enum LogRecord {
    Text(String),
    Object(serde_json::Value),
}

/// A `LogRecord` as a mathematical value.
pub enum LogRecordModel {
    Text(Seq<char>),
    Object(JsonModel),
}

impl View for LogRecord {
    type V = LogRecordModel;

    open spec fn view(&self) -> LogRecordModel {
        match self {
            LogRecord::Text(text) => LogRecordModel::Text(text@),
            LogRecord::Object(value) => LogRecordModel::Object(json_model(*value)),
        }
    }
}

/// The line that a record is shown as: a text as it stands, any other value
/// as its JSON text.
pub open spec fn line_of(record: LogRecordModel) -> Seq<char> {
    match record {
        LogRecordModel::Text(text) => text,
        LogRecordModel::Object(value) => json_text(value),
    }
}

/// The record that a JSON value stands for: a text where it is a string, the
/// value itself otherwise.
pub open spec fn record_of(j: JsonModel) -> LogRecordModel {
    match j {
        JsonModel::Str(text) => LogRecordModel::Text(text),
        other => LogRecordModel::Object(other),
    }
}

/// The records that a list of JSON values stands for, in order.
pub open spec fn records_of(items: Seq<JsonModel>) -> Seq<LogRecordModel> {
    Seq::new(items.len(), |i: int| record_of(items[i]))
}

/// The history that a payload holds: an object whose member `logs` is an array.
pub open spec fn history_of(j: JsonModel) -> Option<Seq<LogRecordModel>> {
    match array_member(j, "logs"@) {
        Some(items) => Some(records_of(items)),
        None => None,
    }
}

/// The models of a list of records, in order.
pub open spec fn record_models(records: Seq<LogRecord>) -> Seq<LogRecordModel> {
    Seq::new(records.len(), |i: int| records[i]@)
}

/// The text of a history: every record's line, each ended by a line feed.
pub open spec fn history_text(records: Seq<LogRecordModel>) -> Seq<char>
    decreases records.len(),
{
    if records.len() == 0 {
        Seq::empty()
    } else {
        history_text(records.drop_last()) + line_of(records.last()) + seq!['\n']
    }
}

impl LogRecord {
    /// The line that the record is shown as.
    pub fn into_line(self) -> (r: String)
        ensures
            r@ == line_of(self@),
    {
        match self {
            LogRecord::Text(text) => text,
            LogRecord::Object(value) => value_text(&value),
        }
    }

    /// The line that the record is shown as, leaving the record in place.
    pub fn line(&self) -> (r: String)
        ensures
            r@ == line_of(self@),
    {
        match self {
            LogRecord::Text(text) => owned(text.as_str()),
            LogRecord::Object(value) => value_text(value),
        }
    }

    /// The record that a JSON value stands for.
    pub fn from_json(value: &serde_json::Value) -> (r: LogRecord)
        ensures
            r@ == record_of(json_model(*value)),
    {
        match value_as_str(value) {
            Some(text) => LogRecord::Text(owned(text)),
            None => LogRecord::Object(value_clone(value)),
        }
    }
}

/// The log history as the service sends it.
#[derive(Debug)]
pub struct LogHistory {
    pub logs: Vec<LogRecord>,
}

impl View for LogHistory {
    type V = Seq<LogRecordModel>;

    open spec fn view(&self) -> Seq<LogRecordModel> {
        record_models(self.logs@)
    }
}

/// The model of the outcome of fetching the history.
pub open spec fn history_outcome_model(outcome: Result<LogHistory, ApiError>) -> Result<
    Seq<LogRecordModel>,
    ApiErrorView,
> {
    match outcome {
        Ok(history) => Ok(history@),
        Err(error) => Err(error@),
    }
}

/// The diagnostic for a payload that is no log history.
pub open spec fn no_history_text() -> Seq<char> {
    "the payload is no log history"@
}

/// What fetching the history yields for a decoded envelope.
pub open spec fn history_result(envelope: EnvelopeModel) -> Result<
    Seq<LogRecordModel>,
    ApiErrorView,
> {
    required_payload(envelope, |j: JsonModel| history_of(j), no_history_text())
}

impl LogHistory {
    /// Reads the payload of a history reply.
    pub fn from_json(value: &serde_json::Value) -> (r: Option<LogHistory>)
        ensures
            match r {
                Some(history) => history_of(json_model(*value)) == Some(history@),
                None => history_of(json_model(*value)) is None,
            },
    {
        let items = match get_array(value, "logs") {
            Some(items) => items,
            None => { return None; },
        };
        let mut logs: Vec<LogRecord> = Vec::new();
        let mut i: usize = 0;
        while i < items.len()
            invariant
                i <= items.len(),
                logs@.len() == i,
                forall|k: int| 0 <= k < i ==> (#[trigger] logs@[k])@ == record_of(json_model(items@[k])),
            decreases items.len() - i,
        {
            logs.push(LogRecord::from_json(&items[i]));
            i = i + 1;
        }
        Some(LogHistory { logs })
    }

    /// The whole history as one text, a line for each record.
    pub fn into_text(self) -> (r: String)
        ensures
            r@ == history_text(self@),
    {
        let mut out = String::new();
        let mut i: usize = 0;
        while i < self.logs.len()
            invariant
                i <= self.logs.len(),
                out@ == history_text(record_models(self.logs@).subrange(0, i as int)),
            decreases self.logs.len() - i,
        {
            let line = self.logs[i].line();
            proof {
                let all = record_models(self.logs@);
                let next = all.subrange(0, i + 1);
                assert(next.drop_last() =~= all.subrange(0, i as int));
                reveal_strlit("\n");
            }
            out.append(line.as_str());
            out.append("\n");
            i = i + 1;
        }
        assert(record_models(self.logs@).subrange(0, i as int) =~= record_models(self.logs@));
        out
    }
}

/// What fetching the history yields for a decoded envelope.
pub fn history_from_response(response: ApiResponse<serde_json::Value>) -> (r: Result<
    LogHistory,
    ApiError,
>)
    ensures
        history_outcome_model(r) == history_result(raw_envelope_model(response)),
{
    match &response.data {
        Some(payload) => match LogHistory::from_json(payload) {
            None => Err(ApiError::Decode(owned("the payload is no log history"))),
            Some(history) => if response.is_ok() {
                Ok(history)
            } else {
                Err(ApiError::Api(response.message))
            },
        },
        None => if response.is_ok() {
            Err(ApiError::MissingData)
        } else {
            Err(ApiError::Api(response.message))
        },
    }
}

} // verus!
