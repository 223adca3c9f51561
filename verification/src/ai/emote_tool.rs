//! The tool with which a language model looks for emotes.

use vstd::prelude::*;

use crate::json;
use crate::json::{Json, JsonModel};
use crate::text::slice;

verus! {

pub const SEARCH_EMOTES_TOOL_NAME: &'static str = "search_emotes";

/// What the model is told of the tool.
pub const SEARCH_EMOTES_DESCRIPTION: &'static str =
    "Search the channel's full 7TV emote set by meaning or by partial code and return the best matches (exact code + meaning + usage). Call this when you want an emote for a feeling or moment that is not among the emotes listed in the system prompt — never invent emote codes. Returns up to 20 ranked matches.";

/// What the model is told of the query.
pub const QUERY_DESCRIPTION: &'static str =
    "Free-text description of the emote you want (e.g. \"laughing\", \"agreement\", \"sarcastic clap\") or a partial emote code.";

/// What the model is told of an empty query.
pub const EMPTY_QUERY: &'static str = "Provide a non-empty query describing the emote you want.";

/// A tool that a language model may call.
#[derive(Debug)]
pub struct ToolDefinition {
    pub name: String,
    pub description: String,
    /// The schema of its arguments.
    pub parameters: Json,
}

/// The schema of the tool's arguments: an object with a query.
pub open spec fn query_schema() -> JsonModel {
    let query = JsonModel::Object(
        seq![
            ("type"@, JsonModel::Text("string"@)),
            ("description"@, JsonModel::Text(QUERY_DESCRIPTION@)),
        ],
    );
    JsonModel::Object(
        seq![
            ("type"@, JsonModel::Text("object"@)),
            ("properties"@, JsonModel::Object(seq![("query"@, query)])),
            ("required"@, JsonModel::List(seq![JsonModel::Text("query"@)])),
        ],
    )
}

/// The tool with which a language model looks for emotes.
pub fn search_emotes_tool() -> (r: ToolDefinition)
    ensures
        r.name@ == SEARCH_EMOTES_TOOL_NAME@,
        r.description@ == SEARCH_EMOTES_DESCRIPTION@,
        json::model(r.parameters) == query_schema(),
{
    let mut query: Vec<(String, Json)> = Vec::new();
    json::put(&mut query, "type", json::text("string"));
    json::put(&mut query, "description", json::text(QUERY_DESCRIPTION));
    assert(json::members_model(query@) =~= seq![
        ("type"@, JsonModel::Text("string"@)),
        ("description"@, JsonModel::Text(QUERY_DESCRIPTION@)),
    ]);
    let ghost query_model = JsonModel::Object(json::members_model(query@));
    let mut properties: Vec<(String, Json)> = Vec::new();
    json::put(&mut properties, "query", Json::Object(query));
    assert(json::members_model(properties@) =~= seq![("query"@, query_model)]);
    let mut required: Vec<String> = Vec::new();
    required.push("query".to_owned());
    let list = json::text_list(&required);
    assert(slice::texts(required@) =~= seq!["query"@]);
    let mut members: Vec<(String, Json)> = Vec::new();
    json::put(&mut members, "type", json::text("object"));
    json::put(&mut members, "properties", Json::Object(properties));
    json::put(&mut members, "required", list);
    let ghost parts = json::members_model(members@);
    let parameters = Json::Object(members);
    assert(slice::texts(required@).map_values(|s: Seq<char>| JsonModel::Text(s)) =~= seq![
        JsonModel::Text("query"@),
    ]);
    assert(parts =~= seq![
        ("type"@, JsonModel::Text("object"@)),
        ("properties"@, JsonModel::Object(seq![("query"@, query_model)])),
        ("required"@, JsonModel::List(seq![JsonModel::Text("query"@)])),
    ]);
    ToolDefinition {
        name: SEARCH_EMOTES_TOOL_NAME.to_owned(),
        description: SEARCH_EMOTES_DESCRIPTION.to_owned(),
        parameters,
    }
}

/// What the model is told of arguments that cannot be read.
pub fn invalid_arguments(details: &str) -> (r: Json)
    ensures
        json::model(r) == JsonModel::Object(
            seq![
                ("error"@, JsonModel::Text("invalid_arguments"@)),
                ("details"@, JsonModel::Text(details@)),
            ],
        ),
{
    let mut members: Vec<(String, Json)> = Vec::new();
    json::put(&mut members, "error", json::text("invalid_arguments"));
    json::put(&mut members, "details", json::text(details));
    assert(json::members_model(members@) =~= seq![
        ("error"@, JsonModel::Text("invalid_arguments"@)),
        ("details"@, JsonModel::Text(details@)),
    ]);
    Json::Object(members)
}

/// What to look for, or what the model is told of its query.
pub fn search_query(query: &str) -> (r: Result<String, String>)
    ensures
        match r {
            Ok(q) => slice::trimmed(query@).len() > 0 && q@ == slice::trimmed(query@),
            Err(text) => slice::trimmed(query@).len() == 0 && text@ == EMPTY_QUERY@,
        },
{
    let q = slice::trim(query);
    if q.as_str().is_empty() {
        Err(EMPTY_QUERY.to_owned())
    } else {
        Ok(q)
    }
}

} // verus!
