//! The tool catalogue and the decisions around running one tool.
//!
//! A call goes through these steps: `find_tool` picks the tool and its
//! arguments, `plan_command` validates the arguments and builds the command
//! line, the caller runs the command, and `finish_command` (or, for the
//! thumbnail and cache tools, `thumbnail_source`, `thumbnail_reply` and
//! `cleanup_reply`) turns the outcome into the call's result.

use vstd::prelude::*;
use vstd::string::StringExecFns;
use crate::command::{
    build_command, opt_view, push_str, rules_words, str_arg, str_member, words, ArgRule,
};
use crate::json::JsonValue;
use crate::text::{append_str, decimal, decimal_chars, str_eq, string_of};

verus! {

/// How a tool's outcome becomes the call's result.
#[derive(Debug, Clone, Copy, PartialEq, Eq, Structural)]
pub enum ToolKind {
    /// Output as text.
    Simple,
    /// Like `Simple`, with a label that names the listed resource.
    Listing,
    /// The command writes an image to a file that the call then returns.
    Thumbnail,
    /// No command: expired cache entries are removed.
    CacheCleanup,
}

/// A tool: its name, the label of its command, and how its arguments become
/// the command line.
#[derive(Debug)]
pub struct ToolEntry {
    pub name: &'static str,
    pub label: &'static str,
    pub kind: ToolKind,
    pub rules: Vec<ArgRule>,
}

/// A command ready to run.
#[derive(Debug)]
pub struct ToolPlan {
    pub argv: Vec<String>,
    pub label: String,
    pub kind: ToolKind,
}

/// What a tool call asks the caller to do.
#[derive(Debug)]
pub enum ToolCall {
    Run(ToolPlan),
    CleanupCache,
}

/// The result of a thumbnail step.
#[derive(Debug)]
pub enum ThumbnailStep {
    /// The image source to embed, or the failure.
    Done(Result<String, String>),
    /// Store the image in the cache under `source` and embed the URL it gets.
    Save { source: String, bytes: Vec<u8> },
}

pub open spec fn tenant_rule() -> ArgRule {
    ArgRule::OptString { key: "tenant", flag: "-t" }
}

pub open spec fn format_rule() -> ArgRule {
    ArgRule::OptString { key: "format", flag: "-f" }
}

pub open spec fn uuid_or_path_rule() -> ArgRule {
    ArgRule::EitherOf {
        first: "uuid",
        first_flag: "--uuid",
        second: "path",
        second_flag: "--path",
        missing: "Missing required argument: provide either 'uuid' or 'path'",
    }
}

pub open spec fn folder_paths_rule() -> ArgRule {
    ArgRule::EachOf {
        key: "folder_path",
        flag: "--folder-path",
        missing: "Missing required argument: 'folder_path'",
    }
}

pub open spec fn threshold_rule() -> ArgRule {
    ArgRule::NumberRange { key: "threshold", min: 0, max: 100 }
}

pub open spec fn concurrent_rule() -> ArgRule {
    ArgRule::IntRange { key: "concurrent", min: 1, max: 10 }
}

/// The catalogue: for each tool, the label of its command, its kind, and its rules.
pub open spec fn catalogue(name: Seq<char>) -> Option<(Seq<char>, ToolKind, Seq<ArgRule>)> {
    if name == "pcli2"@ {
        Some(("pcli2 list"@, ToolKind::Listing, seq![
            ArgRule::WordOr { key: "resource", default: "folder" },
            ArgRule::Word("list"),
            tenant_rule(),
            ArgRule::Flag { key: "metadata", flag: "--metadata" },
            ArgRule::Flag { key: "headers", flag: "--headers" },
            ArgRule::Flag { key: "pretty", flag: "--pretty" },
            format_rule(),
            ArgRule::OptString { key: "folder_uuid", flag: "--folder-uuid" },
            ArgRule::OptString { key: "folder_path", flag: "--folder-path" },
            ArgRule::Flag { key: "reload", flag: "--reload" },
        ]))
    } else if name == "pcli2_tenant_list"@ {
        Some(("pcli2 tenant list"@, ToolKind::Simple, seq![
            ArgRule::Word("tenant"),
            ArgRule::Word("list"),
            ArgRule::Flag { key: "headers", flag: "--headers" },
            ArgRule::Flag { key: "pretty", flag: "--pretty" },
            format_rule(),
        ]))
    } else if name == "pcli2_version"@ {
        Some(("pcli2 --version"@, ToolKind::Simple, seq![ArgRule::Word("--version")]))
    } else if name == "pcli2_config_get"@ {
        Some(("pcli2 config get"@, ToolKind::Simple, seq![
            ArgRule::Word("config"),
            ArgRule::Word("get"),
            ArgRule::Flag { key: "headers", flag: "--headers" },
            ArgRule::Flag { key: "pretty", flag: "--pretty" },
            format_rule(),
        ]))
    } else if name == "pcli2_config_get_path"@ {
        Some(("pcli2 config get path"@, ToolKind::Simple, seq![
            ArgRule::Word("config"),
            ArgRule::Word("get"),
            ArgRule::Word("path"),
            format_rule(),
        ]))
    } else if name == "pcli2_config_environment_list"@ {
        Some(("pcli2 config environment list"@, ToolKind::Simple, seq![
            ArgRule::Word("config"),
            ArgRule::Word("environment"),
            ArgRule::Word("list"),
            ArgRule::Flag { key: "headers", flag: "--headers" },
            ArgRule::Flag { key: "pretty", flag: "--pretty" },
            format_rule(),
        ]))
    } else if name == "pcli2_config_environment_get"@ {
        Some(("pcli2 config environment get"@, ToolKind::Simple, seq![
            ArgRule::Word("config"),
            ArgRule::Word("environment"),
            ArgRule::Word("get"),
            ArgRule::OptString { key: "name", flag: "-n" },
            ArgRule::Flag { key: "headers", flag: "--headers" },
            ArgRule::Flag { key: "pretty", flag: "--pretty" },
            format_rule(),
        ]))
    } else if name == "pcli2_tenant_get"@ {
        Some(("pcli2 tenant get"@, ToolKind::Simple, seq![
            ArgRule::Word("tenant"),
            ArgRule::Word("get"),
            ArgRule::Flag { key: "headers", flag: "--headers" },
            ArgRule::Flag { key: "pretty", flag: "--pretty" },
            format_rule(),
        ]))
    } else if name == "pcli2_tenant_state"@ {
        Some(("pcli2 tenant state"@, ToolKind::Simple, seq![
            ArgRule::Word("tenant"),
            ArgRule::Word("state"),
            tenant_rule(),
            ArgRule::OptString { key: "type", flag: "--type" },
            ArgRule::Flag { key: "headers", flag: "--headers" },
            ArgRule::Flag { key: "pretty", flag: "--pretty" },
            format_rule(),
        ]))
    } else if name == "pcli2_tenant_use"@ {
        Some(("pcli2 tenant use"@, ToolKind::Simple, seq![
            ArgRule::Word("tenant"),
            ArgRule::Word("use"),
            ArgRule::Required {
                key: "tenant_name",
                fallback: Some("name"),
                flag: "--name",
                missing: "Missing required argument: provide 'tenant_name' or 'name'",
            },
            ArgRule::Flag { key: "refresh", flag: "--refresh" },
            ArgRule::Flag { key: "headers", flag: "--headers" },
            ArgRule::Flag { key: "pretty", flag: "--pretty" },
            format_rule(),
        ]))
    } else if name == "pcli2_folder_get"@ {
        Some(("pcli2 folder get"@, ToolKind::Simple, seq![
            ArgRule::Word("folder"),
            ArgRule::Word("get"),
            tenant_rule(),
            ArgRule::EitherOf {
                first: "folder_uuid",
                first_flag: "--folder-uuid",
                second: "folder_path",
                second_flag: "--folder-path",
                missing: "Missing required argument: provide either 'folder_uuid' or 'folder_path'",
            },
            ArgRule::Flag { key: "metadata", flag: "--metadata" },
            ArgRule::Flag { key: "headers", flag: "--headers" },
            ArgRule::Flag { key: "pretty", flag: "--pretty" },
            format_rule(),
        ]))
    } else if name == "pcli2_folder_resolve"@ {
        Some(("pcli2 folder resolve"@, ToolKind::Simple, seq![
            ArgRule::Word("folder"),
            ArgRule::Word("resolve"),
            tenant_rule(),
            ArgRule::Required {
                key: "folder_path",
                fallback: None,
                flag: "--folder-path",
                missing: "Missing required argument: 'folder_path'",
            },
        ]))
    } else if name == "pcli2_folder_dependencies"@ {
        Some(("pcli2 folder dependencies"@, ToolKind::Simple, seq![
            ArgRule::Word("folder"),
            ArgRule::Word("dependencies"),
            tenant_rule(),
            folder_paths_rule(),
            ArgRule::Flag { key: "headers", flag: "--headers" },
            ArgRule::Flag { key: "metadata", flag: "--metadata" },
            ArgRule::Flag { key: "pretty", flag: "--pretty" },
            format_rule(),
            ArgRule::Flag { key: "progress", flag: "--progress" },
        ]))
    } else if name == "pcli2_folder_geometric_match"@ {
        Some(("pcli2 folder geometric-match"@, ToolKind::Simple, seq![
            threshold_rule(),
            concurrent_rule(),
            ArgRule::Word("folder"),
            ArgRule::Word("geometric-match"),
            tenant_rule(),
            folder_paths_rule(),
            ArgRule::OptNumber { key: "threshold", flag: "--threshold" },
            ArgRule::Flag { key: "exclusive", flag: "--exclusive" },
            ArgRule::Flag { key: "headers", flag: "--headers" },
            ArgRule::Flag { key: "metadata", flag: "--metadata" },
            ArgRule::Flag { key: "pretty", flag: "--pretty" },
            format_rule(),
            ArgRule::OptU64 { key: "concurrent", flag: "--concurrent" },
            ArgRule::Flag { key: "progress", flag: "--progress" },
        ]))
    } else if name == "pcli2_folder_part_match"@ {
        Some(("pcli2 folder part-match"@, ToolKind::Simple, seq![
            threshold_rule(),
            concurrent_rule(),
            ArgRule::Word("folder"),
            ArgRule::Word("part-match"),
            tenant_rule(),
            folder_paths_rule(),
            ArgRule::OptNumber { key: "threshold", flag: "--threshold" },
            ArgRule::Flag { key: "exclusive", flag: "--exclusive" },
            ArgRule::Flag { key: "headers", flag: "--headers" },
            ArgRule::Flag { key: "metadata", flag: "--metadata" },
            ArgRule::Flag { key: "pretty", flag: "--pretty" },
            format_rule(),
            ArgRule::OptU64 { key: "concurrent", flag: "--concurrent" },
            ArgRule::Flag { key: "progress", flag: "--progress" },
        ]))
    } else if name == "pcli2_folder_visual_match"@ {
        Some(("pcli2 folder visual-match"@, ToolKind::Simple, seq![
            concurrent_rule(),
            ArgRule::Word("folder"),
            ArgRule::Word("visual-match"),
            tenant_rule(),
            folder_paths_rule(),
            ArgRule::Flag { key: "exclusive", flag: "--exclusive" },
            ArgRule::Flag { key: "headers", flag: "--headers" },
            ArgRule::Flag { key: "metadata", flag: "--metadata" },
            ArgRule::Flag { key: "pretty", flag: "--pretty" },
            format_rule(),
            ArgRule::OptU64 { key: "concurrent", flag: "--concurrent" },
            ArgRule::Flag { key: "progress", flag: "--progress" },
        ]))
    } else if name == "pcli2_asset_get"@ {
        Some(("pcli2 asset get"@, ToolKind::Simple, seq![
            ArgRule::Word("asset"),
            ArgRule::Word("get"),
            tenant_rule(),
            uuid_or_path_rule(),
            ArgRule::Flag { key: "headers", flag: "--headers" },
            ArgRule::Flag { key: "metadata", flag: "--metadata" },
            ArgRule::Flag { key: "pretty", flag: "--pretty" },
            format_rule(),
        ]))
    } else if name == "pcli2_asset_dependencies"@ {
        Some(("pcli2 asset dependencies"@, ToolKind::Simple, seq![
            ArgRule::Word("asset"),
            ArgRule::Word("dependencies"),
            tenant_rule(),
            uuid_or_path_rule(),
            ArgRule::Flag { key: "metadata", flag: "--metadata" },
            ArgRule::Flag { key: "headers", flag: "--headers" },
            ArgRule::Flag { key: "pretty", flag: "--pretty" },
            format_rule(),
        ]))
    } else if name == "pcli2_asset_thumbnail"@ {
        Some(("pcli2 asset thumbnail"@, ToolKind::Thumbnail, seq![
            ArgRule::Word("asset"),
            ArgRule::Word("thumbnail"),
            tenant_rule(),
            uuid_or_path_rule(),
        ]))
    } else if name == "pcli2_asset_reprocess"@ {
        Some(("pcli2 asset reprocess"@, ToolKind::Simple, seq![
            ArgRule::Word("asset"),
            ArgRule::Word("reprocess"),
            tenant_rule(),
            uuid_or_path_rule(),
        ]))
    } else if name == "pcli2_geometric_match"@ {
        Some(("pcli2 asset geometric-match"@, ToolKind::Simple, seq![
            threshold_rule(),
            ArgRule::Word("asset"),
            ArgRule::Word("geometric-match"),
            tenant_rule(),
            uuid_or_path_rule(),
            ArgRule::OptNumber { key: "threshold", flag: "--threshold" },
            ArgRule::Flag { key: "headers", flag: "--headers" },
            ArgRule::Flag { key: "metadata", flag: "--metadata" },
            ArgRule::Flag { key: "pretty", flag: "--pretty" },
            format_rule(),
        ]))
    } else if name == "pcli2_asset_part_match"@ {
        Some(("pcli2 asset part-match"@, ToolKind::Simple, seq![
            threshold_rule(),
            ArgRule::Word("asset"),
            ArgRule::Word("part-match"),
            tenant_rule(),
            uuid_or_path_rule(),
            ArgRule::OptNumber { key: "threshold", flag: "--threshold" },
            ArgRule::Flag { key: "headers", flag: "--headers" },
            ArgRule::Flag { key: "metadata", flag: "--metadata" },
            ArgRule::Flag { key: "pretty", flag: "--pretty" },
            format_rule(),
        ]))
    } else if name == "pcli2_asset_visual_match"@ {
        Some(("pcli2 asset visual-match"@, ToolKind::Simple, seq![
            ArgRule::Word("asset"),
            ArgRule::Word("visual-match"),
            tenant_rule(),
            uuid_or_path_rule(),
            ArgRule::Flag { key: "headers", flag: "--headers" },
            ArgRule::Flag { key: "metadata", flag: "--metadata" },
            ArgRule::Flag { key: "pretty", flag: "--pretty" },
            format_rule(),
        ]))
    } else if name == "pcli2_asset_text_match"@ {
        Some(("pcli2 asset text-match"@, ToolKind::Simple, seq![
            ArgRule::Word("asset"),
            ArgRule::Word("text-match"),
            tenant_rule(),
            ArgRule::Required {
                key: "text",
                fallback: None,
                flag: "--text",
                missing: "Missing required argument: 'text'",
            },
            ArgRule::Flag { key: "fuzzy", flag: "--fuzzy" },
            ArgRule::Flag { key: "headers", flag: "--headers" },
            ArgRule::Flag { key: "metadata", flag: "--metadata" },
            ArgRule::Flag { key: "pretty", flag: "--pretty" },
            format_rule(),
        ]))
    } else if name == "pcli2_asset_metadata_create"@ {
        Some(("pcli2 asset metadata create"@, ToolKind::Simple, seq![
            ArgRule::Word("asset"),
            ArgRule::Word("metadata"),
            ArgRule::Word("create"),
            tenant_rule(),
            uuid_or_path_rule(),
            ArgRule::Required {
                key: "name",
                fallback: None,
                flag: "--name",
                missing: "Missing required argument: 'name'",
            },
            ArgRule::Required {
                key: "value",
                fallback: None,
                flag: "--value",
                missing: "Missing required argument: 'value'",
            },
            ArgRule::OptString { key: "type", flag: "--type" },
        ]))
    } else if name == "pcli2_asset_metadata_delete"@ {
        Some(("pcli2 asset metadata delete"@, ToolKind::Simple, seq![
            ArgRule::Word("asset"),
            ArgRule::Word("metadata"),
            ArgRule::Word("delete"),
            tenant_rule(),
            uuid_or_path_rule(),
            ArgRule::EachName {
                key: "name",
                flag: "--name",
                missing: "Missing required argument: 'name'",
            },
            format_rule(),
        ]))
    } else if name == "pcli2_thumbnail_cache_cleanup"@ {
        Some(("pcli2 thumbnail cache cleanup"@, ToolKind::CacheCleanup, seq![]))
    } else {
        None
    }
}

pub open spec fn known_tool(name: Seq<char>) -> bool {
    catalogue(name) is Some
}

fn tenant() -> (r: ArgRule)
    ensures
        r == tenant_rule(),
{
    ArgRule::OptString { key: "tenant", flag: "-t" }
}

fn format_arg() -> (r: ArgRule)
    ensures
        r == format_rule(),
{
    ArgRule::OptString { key: "format", flag: "-f" }
}

fn flag_rule(key: &'static str, flag: &'static str) -> (r: ArgRule)
    ensures
        r == (ArgRule::Flag { key, flag }),
{
    ArgRule::Flag { key, flag }
}

fn uuid_or_path() -> (r: ArgRule)
    ensures
        r == uuid_or_path_rule(),
{
    ArgRule::EitherOf {
        first: "uuid",
        first_flag: "--uuid",
        second: "path",
        second_flag: "--path",
        missing: "Missing required argument: provide either 'uuid' or 'path'",
    }
}

fn folder_paths() -> (r: ArgRule)
    ensures
        r == folder_paths_rule(),
{
    ArgRule::EachOf {
        key: "folder_path",
        flag: "--folder-path",
        missing: "Missing required argument: 'folder_path'",
    }
}

fn threshold_range() -> (r: ArgRule)
    ensures
        r == threshold_rule(),
{
    ArgRule::NumberRange { key: "threshold", min: 0, max: 100 }
}

fn concurrent_range() -> (r: ArgRule)
    ensures
        r == concurrent_rule(),
{
    ArgRule::IntRange { key: "concurrent", min: 1, max: 10 }
}

fn entry(name: &'static str, label: &'static str, kind: ToolKind, rules: Vec<ArgRule>) -> (r:
    ToolEntry)
    ensures
        r.name == name,
        r.label == label,
        r.kind == kind,
        r.rules == rules,
{
    ToolEntry { name, label, kind, rules }
}

/// The tool called `name`.
pub fn tool_entry(name: &str) -> (r: Option<ToolEntry>)
    ensures
        r is Some <==> known_tool(name@),
        r matches Some(e) ==> e.name@ == name@ && catalogue(name@) == Some(
            (e.label@, e.kind, e.rules@),
        ),
{
    let s = ToolKind::Simple;
    if str_eq(name, "pcli2") {
        return Some(entry("pcli2", "pcli2 list", ToolKind::Listing, vec![
            ArgRule::WordOr { key: "resource", default: "folder" },
            ArgRule::Word("list"),
            tenant(),
            flag_rule("metadata", "--metadata"),
            flag_rule("headers", "--headers"),
            flag_rule("pretty", "--pretty"),
            format_arg(),
            ArgRule::OptString { key: "folder_uuid", flag: "--folder-uuid" },
            ArgRule::OptString { key: "folder_path", flag: "--folder-path" },
            flag_rule("reload", "--reload"),
        ]));
    }
    if str_eq(name, "pcli2_tenant_list") {
        return Some(entry("pcli2_tenant_list", "pcli2 tenant list", s, vec![
            ArgRule::Word("tenant"),
            ArgRule::Word("list"),
            flag_rule("headers", "--headers"),
            flag_rule("pretty", "--pretty"),
            format_arg(),
        ]));
    }
    if str_eq(name, "pcli2_version") {
        return Some(entry("pcli2_version", "pcli2 --version", s, vec![ArgRule::Word("--version")]));
    }
    if str_eq(name, "pcli2_config_get") {
        return Some(entry("pcli2_config_get", "pcli2 config get", s, vec![
            ArgRule::Word("config"),
            ArgRule::Word("get"),
            flag_rule("headers", "--headers"),
            flag_rule("pretty", "--pretty"),
            format_arg(),
        ]));
    }
    if str_eq(name, "pcli2_config_get_path") {
        return Some(entry("pcli2_config_get_path", "pcli2 config get path", s, vec![
            ArgRule::Word("config"),
            ArgRule::Word("get"),
            ArgRule::Word("path"),
            format_arg(),
        ]));
    }
    if str_eq(name, "pcli2_config_environment_list") {
        return Some(entry("pcli2_config_environment_list", "pcli2 config environment list", s, vec![
            ArgRule::Word("config"),
            ArgRule::Word("environment"),
            ArgRule::Word("list"),
            flag_rule("headers", "--headers"),
            flag_rule("pretty", "--pretty"),
            format_arg(),
        ]));
    }
    if str_eq(name, "pcli2_config_environment_get") {
        return Some(entry("pcli2_config_environment_get", "pcli2 config environment get", s, vec![
            ArgRule::Word("config"),
            ArgRule::Word("environment"),
            ArgRule::Word("get"),
            ArgRule::OptString { key: "name", flag: "-n" },
            flag_rule("headers", "--headers"),
            flag_rule("pretty", "--pretty"),
            format_arg(),
        ]));
    }
    if str_eq(name, "pcli2_tenant_get") {
        return Some(entry("pcli2_tenant_get", "pcli2 tenant get", s, vec![
            ArgRule::Word("tenant"),
            ArgRule::Word("get"),
            flag_rule("headers", "--headers"),
            flag_rule("pretty", "--pretty"),
            format_arg(),
        ]));
    }
    if str_eq(name, "pcli2_tenant_state") {
        return Some(entry("pcli2_tenant_state", "pcli2 tenant state", s, vec![
            ArgRule::Word("tenant"),
            ArgRule::Word("state"),
            tenant(),
            ArgRule::OptString { key: "type", flag: "--type" },
            flag_rule("headers", "--headers"),
            flag_rule("pretty", "--pretty"),
            format_arg(),
        ]));
    }
    if str_eq(name, "pcli2_tenant_use") {
        return Some(entry("pcli2_tenant_use", "pcli2 tenant use", s, vec![
            ArgRule::Word("tenant"),
            ArgRule::Word("use"),
            ArgRule::Required {
                key: "tenant_name",
                fallback: Some("name"),
                flag: "--name",
                missing: "Missing required argument: provide 'tenant_name' or 'name'",
            },
            flag_rule("refresh", "--refresh"),
            flag_rule("headers", "--headers"),
            flag_rule("pretty", "--pretty"),
            format_arg(),
        ]));
    }
    if str_eq(name, "pcli2_folder_get") {
        return Some(entry("pcli2_folder_get", "pcli2 folder get", s, vec![
            ArgRule::Word("folder"),
            ArgRule::Word("get"),
            tenant(),
            ArgRule::EitherOf {
                first: "folder_uuid",
                first_flag: "--folder-uuid",
                second: "folder_path",
                second_flag: "--folder-path",
                missing: "Missing required argument: provide either 'folder_uuid' or 'folder_path'",
            },
            flag_rule("metadata", "--metadata"),
            flag_rule("headers", "--headers"),
            flag_rule("pretty", "--pretty"),
            format_arg(),
        ]));
    }
    if str_eq(name, "pcli2_folder_resolve") {
        return Some(entry("pcli2_folder_resolve", "pcli2 folder resolve", s, vec![
            ArgRule::Word("folder"),
            ArgRule::Word("resolve"),
            tenant(),
            ArgRule::Required {
                key: "folder_path",
                fallback: None,
                flag: "--folder-path",
                missing: "Missing required argument: 'folder_path'",
            },
        ]));
    }
    if str_eq(name, "pcli2_folder_dependencies") {
        return Some(entry("pcli2_folder_dependencies", "pcli2 folder dependencies", s, vec![
            ArgRule::Word("folder"),
            ArgRule::Word("dependencies"),
            tenant(),
            folder_paths(),
            flag_rule("headers", "--headers"),
            flag_rule("metadata", "--metadata"),
            flag_rule("pretty", "--pretty"),
            format_arg(),
            flag_rule("progress", "--progress"),
        ]));
    }
    if str_eq(name, "pcli2_folder_geometric_match") {
        return Some(entry("pcli2_folder_geometric_match", "pcli2 folder geometric-match", s, vec![
            threshold_range(),
            concurrent_range(),
            ArgRule::Word("folder"),
            ArgRule::Word("geometric-match"),
            tenant(),
            folder_paths(),
            ArgRule::OptNumber { key: "threshold", flag: "--threshold" },
            flag_rule("exclusive", "--exclusive"),
            flag_rule("headers", "--headers"),
            flag_rule("metadata", "--metadata"),
            flag_rule("pretty", "--pretty"),
            format_arg(),
            ArgRule::OptU64 { key: "concurrent", flag: "--concurrent" },
            flag_rule("progress", "--progress"),
        ]));
    }
    if str_eq(name, "pcli2_folder_part_match") {
        return Some(entry("pcli2_folder_part_match", "pcli2 folder part-match", s, vec![
            threshold_range(),
            concurrent_range(),
            ArgRule::Word("folder"),
            ArgRule::Word("part-match"),
            tenant(),
            folder_paths(),
            ArgRule::OptNumber { key: "threshold", flag: "--threshold" },
            flag_rule("exclusive", "--exclusive"),
            flag_rule("headers", "--headers"),
            flag_rule("metadata", "--metadata"),
            flag_rule("pretty", "--pretty"),
            format_arg(),
            ArgRule::OptU64 { key: "concurrent", flag: "--concurrent" },
            flag_rule("progress", "--progress"),
        ]));
    }
    if str_eq(name, "pcli2_folder_visual_match") {
        return Some(entry("pcli2_folder_visual_match", "pcli2 folder visual-match", s, vec![
            concurrent_range(),
            ArgRule::Word("folder"),
            ArgRule::Word("visual-match"),
            tenant(),
            folder_paths(),
            flag_rule("exclusive", "--exclusive"),
            flag_rule("headers", "--headers"),
            flag_rule("metadata", "--metadata"),
            flag_rule("pretty", "--pretty"),
            format_arg(),
            ArgRule::OptU64 { key: "concurrent", flag: "--concurrent" },
            flag_rule("progress", "--progress"),
        ]));
    }
    if str_eq(name, "pcli2_asset_get") {
        return Some(entry("pcli2_asset_get", "pcli2 asset get", s, vec![
            ArgRule::Word("asset"),
            ArgRule::Word("get"),
            tenant(),
            uuid_or_path(),
            flag_rule("headers", "--headers"),
            flag_rule("metadata", "--metadata"),
            flag_rule("pretty", "--pretty"),
            format_arg(),
        ]));
    }
    if str_eq(name, "pcli2_asset_dependencies") {
        return Some(entry("pcli2_asset_dependencies", "pcli2 asset dependencies", s, vec![
            ArgRule::Word("asset"),
            ArgRule::Word("dependencies"),
            tenant(),
            uuid_or_path(),
            flag_rule("metadata", "--metadata"),
            flag_rule("headers", "--headers"),
            flag_rule("pretty", "--pretty"),
            format_arg(),
        ]));
    }
    if str_eq(name, "pcli2_asset_thumbnail") {
        return Some(entry("pcli2_asset_thumbnail", "pcli2 asset thumbnail", ToolKind::Thumbnail, vec![
            ArgRule::Word("asset"),
            ArgRule::Word("thumbnail"),
            tenant(),
            uuid_or_path(),
        ]));
    }
    if str_eq(name, "pcli2_asset_reprocess") {
        return Some(entry("pcli2_asset_reprocess", "pcli2 asset reprocess", s, vec![
            ArgRule::Word("asset"),
            ArgRule::Word("reprocess"),
            tenant(),
            uuid_or_path(),
        ]));
    }
    if str_eq(name, "pcli2_geometric_match") {
        return Some(entry("pcli2_geometric_match", "pcli2 asset geometric-match", ToolKind::Simple, vec![
            threshold_range(),
            ArgRule::Word("asset"),
            ArgRule::Word("geometric-match"),
            tenant(),
            uuid_or_path(),
            ArgRule::OptNumber { key: "threshold", flag: "--threshold" },
            flag_rule("headers", "--headers"),
            flag_rule("metadata", "--metadata"),
            flag_rule("pretty", "--pretty"),
            format_arg(),
        ]));
    }
    if str_eq(name, "pcli2_asset_part_match") {
        return Some(entry("pcli2_asset_part_match", "pcli2 asset part-match", s, vec![
            threshold_range(),
            ArgRule::Word("asset"),
            ArgRule::Word("part-match"),
            tenant(),
            uuid_or_path(),
            ArgRule::OptNumber { key: "threshold", flag: "--threshold" },
            flag_rule("headers", "--headers"),
            flag_rule("metadata", "--metadata"),
            flag_rule("pretty", "--pretty"),
            format_arg(),
        ]));
    }
    if str_eq(name, "pcli2_asset_visual_match") {
        return Some(entry("pcli2_asset_visual_match", "pcli2 asset visual-match", s, vec![
            ArgRule::Word("asset"),
            ArgRule::Word("visual-match"),
            tenant(),
            uuid_or_path(),
            flag_rule("headers", "--headers"),
            flag_rule("metadata", "--metadata"),
            flag_rule("pretty", "--pretty"),
            format_arg(),
        ]));
    }
    if str_eq(name, "pcli2_asset_text_match") {
        return Some(entry("pcli2_asset_text_match", "pcli2 asset text-match", s, vec![
            ArgRule::Word("asset"),
            ArgRule::Word("text-match"),
            tenant(),
            ArgRule::Required {
                key: "text",
                fallback: None,
                flag: "--text",
                missing: "Missing required argument: 'text'",
            },
            flag_rule("fuzzy", "--fuzzy"),
            flag_rule("headers", "--headers"),
            flag_rule("metadata", "--metadata"),
            flag_rule("pretty", "--pretty"),
            format_arg(),
        ]));
    }
    if str_eq(name, "pcli2_asset_metadata_create") {
        return Some(entry("pcli2_asset_metadata_create", "pcli2 asset metadata create", s, vec![
            ArgRule::Word("asset"),
            ArgRule::Word("metadata"),
            ArgRule::Word("create"),
            tenant(),
            uuid_or_path(),
            ArgRule::Required {
                key: "name",
                fallback: None,
                flag: "--name",
                missing: "Missing required argument: 'name'",
            },
            ArgRule::Required {
                key: "value",
                fallback: None,
                flag: "--value",
                missing: "Missing required argument: 'value'",
            },
            ArgRule::OptString { key: "type", flag: "--type" },
        ]));
    }
    if str_eq(name, "pcli2_asset_metadata_delete") {
        return Some(entry("pcli2_asset_metadata_delete", "pcli2 asset metadata delete", s, vec![
            ArgRule::Word("asset"),
            ArgRule::Word("metadata"),
            ArgRule::Word("delete"),
            tenant(),
            uuid_or_path(),
            ArgRule::EachName {
                key: "name",
                flag: "--name",
                missing: "Missing required argument: 'name'",
            },
            format_arg(),
        ]));
    }
    if str_eq(name, "pcli2_thumbnail_cache_cleanup") {
        return Some(entry("pcli2_thumbnail_cache_cleanup", "pcli2 thumbnail cache cleanup",
            ToolKind::CacheCleanup, vec![]));
    }
    None
}

/// The text result of a tool: `{"content": [{"type": "text", "text": text}]}`.
pub open spec fn is_text_content(v: JsonValue, text: Seq<char>) -> bool {
    match v {
        JsonValue::Object(top) => top@.len() == 1 && top@[0].0@ == "content"@ && match top@[0].1 {
            JsonValue::Array(items) => items@.len() == 1 && match items@[0] {
                JsonValue::Object(fields) => fields@.len() == 2 && fields@[0].0@ == "type"@
                    && fields@[0].1 is Str && fields@[0].1->Str_0@ == "text"@ && fields@[1].0@
                    == "text"@ && fields@[1].1 is Str && fields@[1].1->Str_0@ == text,
                _ => false,
            },
            _ => false,
        },
        _ => false,
    }
}

/// The characters of a fixed text as a `String`.
pub fn owned_str(s: &str) -> (r: String)
    ensures
        r@ == s@,
{
    s.to_owned()
}

/// `{"content": [{"type": "text", "text": text}]}`.
pub fn text_content(text: String) -> (r: JsonValue)
    ensures
        is_text_content(r, text@),
{
    let item = JsonValue::Object(
        vec![
            (owned_str("type"), JsonValue::Str(owned_str("text"))),
            (owned_str("text"), JsonValue::Str(text)),
        ],
    );
    JsonValue::Object(vec![(owned_str("content"), JsonValue::Array(vec![item]))])
}

/// The member `arguments` of a call's parameters.
pub fn tool_arguments(params: &JsonValue) -> (r: Option<&JsonValue>)
    ensures
        match r {
            Some(a) => params.spec_get("arguments"@) == Some(*a),
            None => params.spec_get("arguments"@) is None,
        },
{
    params.get("arguments")
}

/// The tool that a call's parameters name.
pub fn find_tool(params: &JsonValue) -> (r: Result<ToolEntry, String>)
    ensures
        match str_member(*params, "name"@) {
            None => r is Err && r->Err_0@ == "Missing tool name"@,
            Some(n) => if known_tool(n) {
                r is Ok && r->Ok_0.name@ == n && catalogue(n) == Some(
                    (r->Ok_0.label@, r->Ok_0.kind, r->Ok_0.rules@),
                )
            } else {
                r is Err && r->Err_0@ == "Unknown tool '"@ + n + "'"@
            },
        },
{
    let name = match str_arg(params, "name") {
        Some(n) => n,
        None => return Err(owned_str("Missing tool name")),
    };
    match tool_entry(name) {
        Some(e) => Ok(e),
        None => {
            let mut out = String::new();
            out.append("Unknown tool '");
            out.append(name);
            out.append("'");
            Err(out)
        },
    }
}

/// The label of the command a tool runs with these arguments.
pub open spec fn plan_label(entry: ToolEntry, args: JsonValue) -> Seq<char> {
    if entry.kind == ToolKind::Listing {
        "pcli2 "@ + match str_member(args, "resource"@) {
            Some(r) => r,
            None => "folder"@,
        } + " list"@
    } else {
        entry.label@
    }
}

/// A failure as the call reports it: prefixed with the label of the command.
pub open spec fn failure_message(label: Seq<char>, m: Seq<char>) -> Seq<char> {
    label + " failed: "@ + m
}

fn failure(label: &str, m: &str) -> (r: String)
    ensures
        r@ == failure_message(label@, m@),
{
    let mut out = String::new();
    out.append(label);
    out.append(" failed: ");
    out.append(m);
    out
}

/// Validates the arguments of a tool and builds its command line; the
/// thumbnail tool also gets `--file temp_file`, where the image is written.
pub fn plan_command(entry: &ToolEntry, args: &JsonValue, temp_file: &str) -> (r: Result<ToolCall, String>)
    ensures
        entry.kind == ToolKind::CacheCleanup ==> r is Ok && r->Ok_0 is CleanupCache,
        entry.kind != ToolKind::CacheCleanup ==> match rules_words(entry.rules@, *args) {
            Err(m) => r is Err && r->Err_0@ == failure_message(plan_label(*entry, *args), m),
            Ok(w) => r is Ok && r->Ok_0 is Run && words(r->Ok_0->Run_0.argv@) == w + (
            if entry.kind == ToolKind::Thumbnail {
                seq!["--file"@, temp_file@]
            } else {
                seq![]
            }) && r->Ok_0->Run_0.kind == entry.kind && r->Ok_0->Run_0.label@ == plan_label(
                *entry,
                *args,
            ),
        },
{
    if entry.kind == ToolKind::CacheCleanup {
        return Ok(ToolCall::CleanupCache);
    }
    let label = if entry.kind == ToolKind::Listing {
        let mut out: Vec<char> = Vec::new();
        append_str(&mut out, "pcli2 ");
        match str_arg(args, "resource") {
            Some(r) => append_str(&mut out, r),
            None => append_str(&mut out, "folder"),
        }
        append_str(&mut out, " list");
        string_of(out.as_slice())
    } else {
        owned_str(entry.label)
    };
    let mut argv = match build_command(&entry.rules, args) {
        Ok(a) => a,
        Err(m) => return Err(failure(label.as_str(), m.as_str())),
    };
    if entry.kind == ToolKind::Thumbnail {
        let ghost before = words(argv@);
        push_str(&mut argv, "--file");
        push_str(&mut argv, temp_file);
        assert(words(argv@) =~= before + seq!["--file"@, temp_file@]);
    } else {
        assert(words(argv@) =~= words(argv@) + seq![]);
    }
    Ok(ToolCall::Run(ToolPlan { argv, label, kind: entry.kind }))
}

/// The call's result once the command has run: its output as text, or its
/// failure, prefixed with the command's label.
pub fn finish_command(plan: &ToolPlan, output: Result<String, String>) -> (r: Result<JsonValue, String>)
    ensures
        match output {
            Ok(t) => r is Ok && is_text_content(r->Ok_0, t@),
            Err(m) => r is Err && r->Err_0@ == failure_message(plan.label@, m@),
        },
{
    match output {
        Ok(t) => Ok(text_content(t)),
        Err(m) => Err(failure(plan.label.as_str(), m.as_str())),
    }
}

/// The failure of a command as the call reports it, for a command whose
/// output is not returned as text (the thumbnail tool).
pub fn command_failure(plan: &ToolPlan, m: &str) -> (r: String)
    ensures
        r@ == failure_message(plan.label@, m@),
{
    failure(plan.label.as_str(), m)
}

/// The result of the cache cleanup tool: `None` where there is no cache,
/// else how many entries were removed or why that failed.
pub fn cleanup_reply(outcome: Option<Result<usize, String>>) -> (r: Result<JsonValue, String>)
    ensures
        match outcome {
            None => r is Ok && is_text_content(r->Ok_0, "Thumbnail cache is not available"@),
            Some(Ok(n)) => r is Ok && is_text_content(
                r->Ok_0,
                "Cleaned up "@ + decimal(n as nat) + " expired thumbnail(s)"@,
            ),
            Some(Err(e)) => r is Err && r->Err_0@ == "Thumbnail cache cleanup failed: "@ + e@,
        },
{
    match outcome {
        None => Ok(text_content(owned_str("Thumbnail cache is not available"))),
        Some(Ok(n)) => {
            let mut out: Vec<char> = Vec::new();
            append_str(&mut out, "Cleaned up ");
            let mut d = decimal_chars(n as u64);
            out.append(&mut d);
            append_str(&mut out, " expired thumbnail(s)");
            Ok(text_content(string_of(out.as_slice())))
        },
        Some(Err(e)) => {
            let mut out = String::new();
            out.append("Thumbnail cache cleanup failed: ");
            out.append(e.as_str());
            Err(out)
        },
    }
}

/// The standard base64 encoding (with padding) of `b`.
pub uninterp spec fn base64_of(b: Seq<u8>) -> Seq<char>;

/// The largest input that the base64 encoder takes: its output length must fit in `usize`.
pub const MAX_ENCODABLE: usize = usize::MAX / 2;

/// Relies on `base64::engine::general_purpose::STANDARD.encode`: padded standard
/// base64, four characters for every started group of three bytes.
#[verifier::external_body]
fn base64_encode(b: &[u8]) -> (r: String)
    requires
        b@.len() <= MAX_ENCODABLE,
    ensures
        r@ == base64_of(b@),
        r@.len() == 4 * ((b@.len() + 2) / 3),
{
    base64::Engine::encode(&base64::engine::general_purpose::STANDARD, b)
}

/// The first eight bytes of every PNG file.
pub open spec fn is_png(b: Seq<u8>) -> bool {
    b.len() >= 8 && b[0] == 0x89u8 && b[1] == 0x50u8 && b[2] == 0x4eu8 && b[3] == 0x47u8
        && b[4] == 0x0du8 && b[5] == 0x0au8 && b[6] == 0x1au8 && b[7] == 0x0au8
}

pub fn png_signature(b: &[u8]) -> (r: bool)
    ensures
        r == is_png(b@),
{
    b.len() >= 8 && b[0] == 0x89u8 && b[1] == 0x50u8 && b[2] == 0x4eu8 && b[3] == 0x47u8
        && b[4] == 0x0du8 && b[5] == 0x0au8 && b[6] == 0x1au8 && b[7] == 0x0au8
}

/// A self-contained image source: `data:image/png;base64,` and the encoded bytes.
pub open spec fn data_url(b: Seq<u8>) -> Seq<char> {
    "data:image/png;base64,"@ + base64_of(b)
}

/// The `data:` URL of a PNG image.
pub fn png_data_url(b: &[u8]) -> (r: String)
    requires
        b@.len() <= MAX_ENCODABLE,
    ensures
        r@ == data_url(b@),
{
    let mut out: Vec<char> = Vec::new();
    append_str(&mut out, "data:image/png;base64,");
    let e = base64_encode(b);
    append_str(&mut out, e.as_str());
    string_of(out.as_slice())
}

/// What a cached thumbnail is filed under: the `uuid`, else the `path`, else `unknown`.
pub open spec fn thumbnail_source_name(args: JsonValue) -> Seq<char> {
    match str_member(args, "uuid"@) {
        Some(u) => u,
        None => match str_member(args, "path"@) {
            Some(p) => p,
            None => "unknown"@,
        },
    }
}

/// Whether the call asks for the image itself rather than a URL.
pub open spec fn wants_data_url(args: JsonValue) -> bool {
    str_member(args, "response_mode"@) == Some("data_url"@)
}

/// Whether the image is returned encoded in the call's result rather than as a URL.
pub open spec fn encodes_image(args: JsonValue, cache_available: bool) -> bool {
    wants_data_url(args) || !cache_available
}

/// Whether the image of a thumbnail call will be encoded: asked for as a
/// `data:` URL, or no cache to serve it from.
pub fn encodes_thumbnail(args: &JsonValue, cache_available: bool) -> (r: bool)
    ensures
        r == encodes_image(*args, cache_available),
{
    let data_mode = match str_arg(args, "response_mode") {
        Some(m) => str_eq(m, "data_url"),
        None => false,
    };
    data_mode || !cache_available
}

/// What follows once the thumbnail command has run and its file was read.
pub fn thumbnail_source(args: &JsonValue, read: Result<Vec<u8>, String>, cache_available: bool) -> (r:
    ThumbnailStep)
    requires
        read matches Ok(b) ==> (is_png(b@) && encodes_image(*args, cache_available) ==> b@.len()
            <= MAX_ENCODABLE),
    ensures
        match read {
            Err(e) => r is Done && r->Done_0 is Err && r->Done_0->Err_0@
                == "Failed to read thumbnail output: "@ + e@,
            Ok(b) => if !is_png(b@) {
                r is Done && r->Done_0 is Err && r->Done_0->Err_0@
                    == "Thumbnail output was not a valid PNG file."@
            } else if encodes_image(*args, cache_available) {
                r is Done && r->Done_0 is Ok && r->Done_0->Ok_0@ == data_url(b@)
            } else {
                r is Save && r->source@ == thumbnail_source_name(*args) && r->bytes == b
            },
        },
{
    let bytes = match read {
        Ok(b) => b,
        Err(e) => {
            let mut out = String::new();
            out.append("Failed to read thumbnail output: ");
            out.append(e.as_str());
            return ThumbnailStep::Done(Err(out));
        },
    };
    if !png_signature(bytes.as_slice()) {
        return ThumbnailStep::Done(Err(owned_str("Thumbnail output was not a valid PNG file.")));
    }
    if encodes_thumbnail(args, cache_available) {
        return ThumbnailStep::Done(Ok(png_data_url(bytes.as_slice())));
    }
    let source = match str_arg(args, "uuid") {
        Some(u) => owned_str(u),
        None => match str_arg(args, "path") {
            Some(p) => owned_str(p),
            None => owned_str("unknown"),
        },
    };
    ThumbnailStep::Save { source, bytes }
}

/// A minimal HTML page that shows the image at `src`.
pub open spec fn thumbnail_html(src: Seq<char>) -> Seq<char> {
    "<!DOCTYPE html>\n<html>\n<head><title>Asset Thumbnail</title></head>\n<body>\n<img src=\""@
        + src
        + "\" alt=\"Asset Thumbnail\" style=\"max-width: 100%; height: auto;\">\n</body>\n</html>"@
}

/// The thumbnail call's result: a page embedding the image source, or the failure.
pub fn thumbnail_reply(src: Result<String, String>) -> (r: Result<JsonValue, String>)
    ensures
        match src {
            Ok(s) => r is Ok && is_text_content(r->Ok_0, thumbnail_html(s@)),
            Err(m) => r is Err && r->Err_0 == m,
        },
{
    match src {
        Ok(s) => {
            let mut out: Vec<char> = Vec::new();
            append_str(&mut out, "<!DOCTYPE html>\n<html>\n<head><title>Asset Thumbnail</title></head>\n<body>\n<img src=\"");
            append_str(&mut out, s.as_str());
            append_str(&mut out, "\" alt=\"Asset Thumbnail\" style=\"max-width: 100%; height: auto;\">\n</body>\n</html>");
            Ok(text_content(string_of(out.as_slice())))
        },
        Err(m) => Err(m),
    }
}

} // verus!
