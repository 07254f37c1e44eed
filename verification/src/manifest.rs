//! The plugin manifest, by which a host discovers the plugin.

use crate::dispatch::{
    advertised_methods, METHOD_SLACK_CHAT_POST_EPHEMERAL, METHOD_SLACK_CHAT_POST_MESSAGE,
    METHOD_SLACK_SEND_DM,
};
use crate::json::{no_members, put, Json, JsonView, Member};
use crate::protocol::{
    METHOD_TRIGGER_ACK, METHOD_TRIGGER_SCHEMA, METHOD_TRIGGER_WATCH, PLUGIN_KIND_TRIGGER_BACKEND,
};
use crate::text::same_text;
use vstd::prelude::*;

verus! {

/// Whether an argument asks for the manifest.
pub open spec fn asks_for_manifest(argument: Seq<char>) -> bool {
    argument == "--manifest"@ || argument == "-m"@
}

/// Whether the command line, program name first, asks for the manifest.
pub fn manifest_requested(arguments: &Vec<String>) -> (r: bool)
    ensures
        r == exists|i: int|
            1 <= i < arguments@.len() && asks_for_manifest(#[trigger] arguments@[i]@),
{
    let mut at: usize = 1;
    while at < arguments.len()
        invariant
            1 <= at,
            forall|i: int|
                1 <= i < at && i < arguments@.len() ==> !asks_for_manifest(
                    #[trigger] arguments@[i]@,
                ),
        decreases arguments@.len() - at,
    {
        let argument: &str = arguments[at].as_str();
        if same_text(argument, "--manifest") || same_text(argument, "-m") {
            assert(asks_for_manifest(arguments@[at as int]@));
            return true;
        }
        at = at + 1;
    }
    false
}

/// The methods that the manifest lists.
pub open spec fn manifest_methods() -> Seq<Seq<char>> {
    seq![
        METHOD_TRIGGER_WATCH@,
        METHOD_TRIGGER_SCHEMA@,
        METHOD_TRIGGER_ACK@,
        "health/check"@,
        METHOD_SLACK_CHAT_POST_MESSAGE@,
        METHOD_SLACK_CHAT_POST_EPHEMERAL@,
        METHOD_SLACK_SEND_DM@,
    ]
}

/// The manifest's entry on an environment variable that has to be set.
pub open spec fn secret_variable(name: Seq<char>, description: Seq<char>) -> JsonView {
    JsonView::Object(
        no_members().insert("name"@, JsonView::Text(name)).insert(
            "description"@,
            JsonView::Text(description),
        ).insert("sensitive"@, JsonView::Bool(true)).insert("required"@, JsonView::Bool(true)),
    )
}

/// The manifest's entry on an environment variable that may be set.
pub open spec fn optional_variable(name: Seq<char>, description: Seq<char>) -> JsonView {
    JsonView::Object(
        no_members().insert("name"@, JsonView::Text(name)).insert(
            "description"@,
            JsonView::Text(description),
        ).insert("required"@, JsonView::Bool(false)),
    )
}

/// The manifest's entries on environment variables.
pub open spec fn manifest_variables() -> Seq<JsonView> {
    seq![
        secret_variable("SLACK_APP_TOKEN"@, "Socket Mode app-level token."@),
        secret_variable("SLACK_BOT_TOKEN"@, "Bot user OAuth token."@),
        optional_variable(
            "SLACK_FILTER_CHANNELS"@,
            "Comma-separated channel IDs to listen on."@,
        ),
        optional_variable("SLACK_API_BASE"@, "Override the Slack Web API base URL."@),
    ]
}

/// The manifest of the plugin with this name, version, description and protocol
/// version.
pub open spec fn manifest_tree(
    name: Seq<char>,
    version: Seq<char>,
    description: Seq<char>,
    protocol_version: Seq<char>,
) -> JsonView {
    JsonView::Object(
        no_members().insert("name"@, JsonView::Text(name)).insert(
            "version"@,
            JsonView::Text(version),
        ).insert("plugin_kind"@, JsonView::Text(PLUGIN_KIND_TRIGGER_BACKEND@)).insert(
            "description"@,
            JsonView::Text(description),
        ).insert("protocol_version"@, JsonView::Text(protocol_version)).insert(
            "capabilities"@,
            JsonView::Array(manifest_methods().map_values(|method: Seq<char>| JsonView::Text(method))),
        ).insert("env_required"@, JsonView::Array(manifest_variables())),
    )
}

fn variable(name: &str, description: &str, secret: bool) -> (r: Json)
    ensures
        r@ == (if secret {
            secret_variable(name@, description@)
        } else {
            optional_variable(name@, description@)
        }),
{
    let mut members: Vec<Member> = Vec::new();
    put(&mut members, "name", Json::from_text(name));
    put(&mut members, "description", Json::from_text(description));
    if secret {
        put(&mut members, "sensitive", Json::Bool(true));
    }
    put(&mut members, "required", Json::Bool(secret));
    Json::Object(members)
}

fn capabilities() -> (r: Json)
    ensures
        r@ == JsonView::Array(
            manifest_methods().map_values(|method: Seq<char>| JsonView::Text(method)),
        ),
{
    let mut items: Vec<Json> = Vec::new();
    items.push(Json::from_text(METHOD_TRIGGER_WATCH));
    items.push(Json::from_text(METHOD_TRIGGER_SCHEMA));
    items.push(Json::from_text(METHOD_TRIGGER_ACK));
    items.push(Json::from_text("health/check"));
    items.push(Json::from_text(METHOD_SLACK_CHAT_POST_MESSAGE));
    items.push(Json::from_text(METHOD_SLACK_CHAT_POST_EPHEMERAL));
    items.push(Json::from_text(METHOD_SLACK_SEND_DM));
    let r: Json = Json::Array(items);
    assert(r@->Array_0 =~= manifest_methods().map_values(
        |method: Seq<char>| JsonView::Text(method),
    ));
    r
}

fn variables() -> (r: Json)
    ensures
        r@ == JsonView::Array(manifest_variables()),
{
    let mut items: Vec<Json> = Vec::new();
    items.push(variable("SLACK_APP_TOKEN", "Socket Mode app-level token.", true));
    items.push(variable("SLACK_BOT_TOKEN", "Bot user OAuth token.", true));
    items.push(
        variable("SLACK_FILTER_CHANNELS", "Comma-separated channel IDs to listen on.", false),
    );
    items.push(variable("SLACK_API_BASE", "Override the Slack Web API base URL.", false));
    let r: Json = Json::Array(items);
    assert(r@->Array_0 =~= manifest_variables());
    r
}

/// The manifest of the plugin. It needs no environment variables.
pub fn manifest(name: &str, version: &str, description: &str, protocol_version: &str) -> (r: Json)
    ensures
        r@ == manifest_tree(name@, version@, description@, protocol_version@),
{
    let mut members: Vec<Member> = Vec::new();
    put(&mut members, "name", Json::from_text(name));
    put(&mut members, "version", Json::from_text(version));
    put(&mut members, "plugin_kind", Json::from_text(PLUGIN_KIND_TRIGGER_BACKEND));
    put(&mut members, "description", Json::from_text(description));
    put(&mut members, "protocol_version", Json::from_text(protocol_version));
    put(&mut members, "capabilities", capabilities());
    put(&mut members, "env_required", variables());
    Json::Object(members)
}

/// The manifest lists the methods that the plugin advertises once it runs, and
/// no others.
pub proof fn law_manifest_methods(method: Seq<char>)
    ensures
        manifest_methods().contains(method) <==> advertised_methods(true).contains(method),
{
    let listed = manifest_methods();
    let advertised = advertised_methods(true);
    assert(advertised[0] == listed[0] && advertised[1] == listed[1] && advertised[6] == listed[2]
        && advertised[2] == listed[3] && advertised[3] == listed[4] && advertised[4] == listed[5]
        && advertised[5] == listed[6]);
    if listed.contains(method) {
        let i = choose|i: int| 0 <= i < listed.len() && listed[i] == method;
        assert(i == 0 || i == 1 || i == 2 || i == 3 || i == 4 || i == 5 || i == 6);
    }
    if advertised.contains(method) {
        let i = choose|i: int| 0 <= i < advertised.len() && advertised[i] == method;
        assert(i == 0 || i == 1 || i == 2 || i == 3 || i == 4 || i == 5 || i == 6);
    }
}

/// The manifest is asked for by `--manifest` and by `-m`, and by nothing else.
pub proof fn law_manifest_argument(argument: Seq<char>)
    ensures
        asks_for_manifest(argument) <==> argument == "--manifest"@ || argument == "-m"@,
{
}

/// The manifest says the name, version, description and protocol version that
/// were given, and lists the methods and the four variables, two of them secret.
pub proof fn law_manifest(
    name: Seq<char>,
    version: Seq<char>,
    description: Seq<char>,
    protocol_version: Seq<char>,
)
    ensures
        ({
            let manifest = manifest_tree(name, version, description, protocol_version);
            &&& manifest.text_at("name"@) == Some(name)
            &&& manifest.text_at("version"@) == Some(version)
            &&& manifest.text_at("plugin_kind"@) == Some("trigger_backend"@)
            &&& manifest.text_at("description"@) == Some(description)
            &&& manifest.text_at("protocol_version"@) == Some(protocol_version)
            &&& manifest is Object
            &&& forall|member: Seq<char>| #[trigger]
                manifest.get(member) is Some ==> member == "name"@ || member == "version"@ || member
                    == "plugin_kind"@ || member == "description"@ || member == "protocol_version"@
                    || member == "capabilities"@ || member == "env_required"@
            &&& manifest.get("capabilities"@) matches Some(JsonView::Array(methods))
            &&& methods.len() == 7
            &&& methods[0] == JsonView::Text("trigger/watch"@)
            &&& methods[1] == JsonView::Text("trigger/schema"@)
            &&& methods[2] == JsonView::Text("trigger/ack"@)
            &&& methods[3] == JsonView::Text("health/check"@)
            &&& methods[4] == JsonView::Text("slack/chat_post_message"@)
            &&& methods[5] == JsonView::Text("slack/chat_post_ephemeral"@)
            &&& methods[6] == JsonView::Text("slack/send_dm"@)
            &&& manifest.get("env_required"@) matches Some(JsonView::Array(variables))
            &&& variables.len() == 4
            &&& variables[0].text_at("name"@) == Some("SLACK_APP_TOKEN"@)
            &&& variables[0].text_at("description"@) == Some("Socket Mode app-level token."@)
            &&& variables[0].bool_at("required"@) == Some(true)
            &&& variables[0].bool_at("sensitive"@) == Some(true)
            &&& variables[1].text_at("name"@) == Some("SLACK_BOT_TOKEN"@)
            &&& variables[1].text_at("description"@) == Some("Bot user OAuth token."@)
            &&& variables[1].bool_at("required"@) == Some(true)
            &&& variables[1].bool_at("sensitive"@) == Some(true)
            &&& variables[2].text_at("name"@) == Some("SLACK_FILTER_CHANNELS"@)
            &&& variables[2].text_at("description"@) == Some(
                "Comma-separated channel IDs to listen on."@,
            )
            &&& variables[2].bool_at("required"@) == Some(false)
            &&& variables[3].text_at("name"@) == Some("SLACK_API_BASE"@)
            &&& variables[3].text_at("description"@) == Some("Override the Slack Web API base URL."@)
            &&& variables[3].bool_at("required"@) == Some(false)
        }),
{
    reveal_strlit("name");
    reveal_strlit("version");
    reveal_strlit("plugin_kind");
    reveal_strlit("description");
    reveal_strlit("protocol_version");
    reveal_strlit("capabilities");
    reveal_strlit("env_required");
    reveal_strlit("sensitive");
    reveal_strlit("required");
    assert("name"@.len() == 4 && "version"@.len() == 7 && "plugin_kind"@.len() == 11
        && "description"@.len() == 11 && "protocol_version"@.len() == 16 && "capabilities"@.len()
        == 12 && "env_required"@.len() == 12 && "sensitive"@.len() == 9 && "required"@.len() == 8);
    assert("plugin_kind"@[0] != "description"@[0]);
    assert("capabilities"@[0] != "env_required"@[0]);
}

} // verus!
