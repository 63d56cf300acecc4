//! The static parameter tables: for each tool, the recognized argument names,
//! each field's type, its wire name, and its advertised description; and the
//! tool definitions and server metadata the session handshake advertises.
//!
//! Generation is pure: the same tool always yields the same table, and the
//! tables are consulted both by the handshake (to advertise capabilities) and
//! by argument validation (whose wire names and types mirror these tables).
use vstd::prelude::*;

verus! {

/// The primitive type an argument value must have to match a field.
#[derive(Debug, Clone, Copy, PartialEq, Eq, Structural)]
pub enum FieldType {
    /// A JSON string, passed through as the field's value.
    Text,
    /// A JSON boolean, encoded as `true` or `false`.
    Flag,
    /// A JSON string holding one of the origin tokens.
    OriginToken,
}

/// One entry of a tool's parameter table.
#[derive(Debug, Clone)]
pub struct FieldSpec {
    /// The field's name inside the library.
    pub name: String,
    /// The key used on the wire: in the argument object and the query string.
    pub wire: String,
    /// The primitive type an argument value must have.
    pub typ: FieldType,
    /// Whether a conforming argument object must set the field.
    pub required: bool,
    /// The human-readable description advertised in the handshake.
    pub description: String,
}

/// What one optional table entry holds.
pub open spec fn field_is(
    f: FieldSpec,
    name: Seq<char>,
    wire: Seq<char>,
    typ: FieldType,
    desc: Seq<char>,
) -> bool {
    f.name@ == name && f.wire@ == wire && f.typ == typ && !f.required && f.description@ == desc
}

/// Build one optional table entry.
fn field(name: &str, wire: &str, typ: FieldType, description: &str) -> (r: FieldSpec)
    ensures
        field_is(r, name@, wire@, typ, description@),
{
    FieldSpec {
        name: name.to_owned(),
        wire: wire.to_owned(),
        typ,
        required: false,
        description: description.to_owned(),
    }
}

/// The cards parameter table, entry by entry, in field order.
pub open spec fn is_cards_schema(fs: Seq<FieldSpec>) -> bool {
    &&& fs.len() == 14
    &&& field_is(
        fs[0],
        "origin"@,
        "origin"@,
        FieldType::OriginToken,
        "Filter by card origin ('official', 'unofficial', or 'all'). If omitted, the API defaults to 'all'."@,
    )
    &&& field_is(fs[1], "incomplete"@, "incomplete"@, FieldType::Flag, "Filter incomplete cards."@)
    &&& field_is(fs[2], "author"@, "author"@, FieldType::Text, "Filter by card author ID."@)
    &&& field_is(
        fs[3],
        "boost"@,
        "boost"@,
        FieldType::Text,
        "Filter by boost icon value (e.g., '{b}' or '{s}'. For more than one boost icon, append them one after another: '{b}{b}'. If there is a '{s}', it always comes first.)."@,
    )
    &&& field_is(
        fs[4],
        "classification"@,
        "classification"@,
        FieldType::Text,
        "Filter by classification ('encounter', 'basic', 'protection', '). This is sometimes called \"aspect\". Note: API uses lowercase."@,
    )
    &&& field_is(
        fs[5],
        "cost"@,
        "cost"@,
        FieldType::Text,
        "Filter by card cost (e.g., '-', '0', '1', 'X')."@,
    )
    &&& field_is(
        fs[6],
        "exclude_campaign"@,
        "excludeCampaign"@,
        FieldType::Flag,
        "If present (e.g., 'true'), exclude campaign cards."@,
    )
    &&& field_is(
        fs[7],
        "name"@,
        "name"@,
        FieldType::Text,
        "Filter by card name (partial match)."@,
    )
    &&& field_is(
        fs[8],
        "resource"@,
        "resource"@,
        FieldType::Text,
        "Filter by printed resource ('{p}' for Phyical, '{m}' for Mental, '{e}' for Energy, '{w}' for Wild, or 'none'). To filter by more than one resource, just append them (i.e. {{Energy}}{{Physical}}). Note: API uses lowercase."@,
    )
    &&& field_is(
        fs[9],
        "text"@,
        "text"@,
        FieldType::Text,
        "Filter by text in the card's rules or special text."@,
    )
    &&& field_is(
        fs[10],
        "traits"@,
        "traits"@,
        FieldType::Text,
        "Filter by traits (comma-separated list, e.g., 'Avenger,S.H.I.E.L.D.'). All specified traits must be present."@,
    )
    &&& field_is(
        fs[11],
        "type_"@,
        "type"@,
        FieldType::Text,
        "Filter by card type (e.g., 'ally', 'event', 'hero', 'villain', 'minion', etc.). Note: API uses lowercase."@,
    )
    &&& field_is(fs[12], "pack"@, "pack"@, FieldType::Text, "Filter by pack code or name."@)
    &&& field_is(fs[13], "set"@, "set"@, FieldType::Text, "Filter by set code or name."@)
}

/// The packs parameter table, entry by entry, in field order.
pub open spec fn is_packs_schema(fs: Seq<FieldSpec>) -> bool {
    &&& fs.len() == 4
    &&& field_is(
        fs[0],
        "origin"@,
        "origin"@,
        FieldType::OriginToken,
        "Filter by pack origin ('official', 'unofficial', or 'all'). If omitted, the API defaults to 'all'."@,
    )
    &&& field_is(fs[1], "incomplete"@, "incomplete"@, FieldType::Flag, "Filter incomplete cards."@)
    &&& field_is(fs[2], "id"@, "id"@, FieldType::Text, "Filter by pack ID."@)
    &&& field_is(fs[3], "name"@, "name"@, FieldType::Text, "Filter by pack name."@)
}

/// The sets parameter table, entry by entry, in field order.
pub open spec fn is_sets_schema(fs: Seq<FieldSpec>) -> bool {
    &&& fs.len() == 4
    &&& field_is(
        fs[0],
        "origin"@,
        "origin"@,
        FieldType::OriginToken,
        "Filter by origin ('official', 'unofficial', or 'all'). If omitted, the API defaults to 'all'."@,
    )
    &&& field_is(fs[1], "id"@, "id"@, FieldType::Text, "Filter by set ID."@)
    &&& field_is(fs[2], "name"@, "name"@, FieldType::Text, "Filter by set name."@)
    &&& field_is(fs[3], "type_"@, "type"@, FieldType::Text, "Filter by set type."@)
}

/// Build the cards parameter table.
pub fn cards_schema() -> (r: Vec<FieldSpec>)
    ensures
        is_cards_schema(r@),
{
    let mut fs: Vec<FieldSpec> = Vec::new();
    fs.push(
        field(
            "origin",
            "origin",
            FieldType::OriginToken,
            "Filter by card origin ('official', 'unofficial', or 'all'). If omitted, the API defaults to 'all'.",
        ),
    );
    fs.push(field("incomplete", "incomplete", FieldType::Flag, "Filter incomplete cards."));
    fs.push(field("author", "author", FieldType::Text, "Filter by card author ID."));
    fs.push(
        field(
            "boost",
            "boost",
            FieldType::Text,
            "Filter by boost icon value (e.g., '{b}' or '{s}'. For more than one boost icon, append them one after another: '{b}{b}'. If there is a '{s}', it always comes first.).",
        ),
    );
    fs.push(
        field(
            "classification",
            "classification",
            FieldType::Text,
            "Filter by classification ('encounter', 'basic', 'protection', '). This is sometimes called \"aspect\". Note: API uses lowercase.",
        ),
    );
    fs.push(field("cost", "cost", FieldType::Text, "Filter by card cost (e.g., '-', '0', '1', 'X')."));
    fs.push(
        field(
            "exclude_campaign",
            "excludeCampaign",
            FieldType::Flag,
            "If present (e.g., 'true'), exclude campaign cards.",
        ),
    );
    fs.push(field("name", "name", FieldType::Text, "Filter by card name (partial match)."));
    fs.push(
        field(
            "resource",
            "resource",
            FieldType::Text,
            "Filter by printed resource ('{p}' for Phyical, '{m}' for Mental, '{e}' for Energy, '{w}' for Wild, or 'none'). To filter by more than one resource, just append them (i.e. {{Energy}}{{Physical}}). Note: API uses lowercase.",
        ),
    );
    fs.push(
        field("text", "text", FieldType::Text, "Filter by text in the card's rules or special text."),
    );
    fs.push(
        field(
            "traits",
            "traits",
            FieldType::Text,
            "Filter by traits (comma-separated list, e.g., 'Avenger,S.H.I.E.L.D.'). All specified traits must be present.",
        ),
    );
    fs.push(
        field(
            "type_",
            "type",
            FieldType::Text,
            "Filter by card type (e.g., 'ally', 'event', 'hero', 'villain', 'minion', etc.). Note: API uses lowercase.",
        ),
    );
    fs.push(field("pack", "pack", FieldType::Text, "Filter by pack code or name."));
    fs.push(field("set", "set", FieldType::Text, "Filter by set code or name."));
    fs
}

/// Build the packs parameter table.
pub fn packs_schema() -> (r: Vec<FieldSpec>)
    ensures
        is_packs_schema(r@),
{
    let mut fs: Vec<FieldSpec> = Vec::new();
    fs.push(
        field(
            "origin",
            "origin",
            FieldType::OriginToken,
            "Filter by pack origin ('official', 'unofficial', or 'all'). If omitted, the API defaults to 'all'.",
        ),
    );
    fs.push(field("incomplete", "incomplete", FieldType::Flag, "Filter incomplete cards."));
    fs.push(field("id", "id", FieldType::Text, "Filter by pack ID."));
    fs.push(field("name", "name", FieldType::Text, "Filter by pack name."));
    fs
}

/// Build the sets parameter table.
pub fn sets_schema() -> (r: Vec<FieldSpec>)
    ensures
        is_sets_schema(r@),
{
    let mut fs: Vec<FieldSpec> = Vec::new();
    fs.push(
        field(
            "origin",
            "origin",
            FieldType::OriginToken,
            "Filter by origin ('official', 'unofficial', or 'all'). If omitted, the API defaults to 'all'.",
        ),
    );
    fs.push(field("id", "id", FieldType::Text, "Filter by set ID."));
    fs.push(field("name", "name", FieldType::Text, "Filter by set name."));
    fs.push(field("type_", "type", FieldType::Text, "Filter by set type."));
    fs
}

/// One advertised tool: its name, description, and parameter table.
#[derive(Debug, Clone)]
pub struct ToolDefinition {
    pub name: String,
    pub description: String,
    pub fields: Vec<FieldSpec>,
}

/// Build the full set of tool definitions the handshake advertises, built
/// once at session start and immutable thereafter.
pub fn tool_definitions() -> (r: Vec<ToolDefinition>)
    ensures
        r@.len() == 3,
        r@[0].name@ == "get_cards"@,
        r@[0].description@ == "Fetch a list of Marvel Champions card data"@,
        is_cards_schema(r@[0].fields@),
        r@[1].name@ == "get_packs"@,
        r@[1].description@ == "Fetch a list of Marvel Champions pack data"@,
        is_packs_schema(r@[1].fields@),
        r@[2].name@ == "get_sets"@,
        r@[2].description@ == "Fetch a list of Marvel Champions set data"@,
        is_sets_schema(r@[2].fields@),
{
    let mut ts: Vec<ToolDefinition> = Vec::new();
    ts.push(
        ToolDefinition {
            name: "get_cards".to_owned(),
            description: "Fetch a list of Marvel Champions card data".to_owned(),
            fields: cards_schema(),
        },
    );
    ts.push(
        ToolDefinition {
            name: "get_packs".to_owned(),
            description: "Fetch a list of Marvel Champions pack data".to_owned(),
            fields: packs_schema(),
        },
    );
    ts.push(
        ToolDefinition {
            name: "get_sets".to_owned(),
            description: "Fetch a list of Marvel Champions set data".to_owned(),
            fields: sets_schema(),
        },
    );
    ts
}

/// The metadata the session handshake returns beside the tool definitions.
#[derive(Debug, Clone)]
pub struct ServerMeta {
    /// The instructions text shown to the caller.
    pub instructions: String,
    /// Whether the tools capability is declared enabled.
    pub tools_enabled: bool,
}

/// Build the handshake metadata: the instructions text, with tools enabled.
pub fn server_meta() -> (r: ServerMeta)
    ensures
        r.instructions@ == "Cerebro API"@,
        r.tools_enabled,
{
    ServerMeta { instructions: "Cerebro API".to_owned(), tools_enabled: true }
}

} // verus!
