//! The executable that the host launches, and the naming of cache entries.
use vstd::prelude::*;

verus! {

/// An executable path, an optional environment override and the arguments
/// that start the tool.
#[derive(Debug, Clone)]
pub struct LanguageServerBinary {
    pub path: String,
    pub env: Option<Vec<(String, String)>>,
    pub arguments: Vec<String>,
}

/// The arguments that put the tool into server mode.
pub open spec fn server_mode_arguments() -> Seq<Seq<char>> {
    seq!["server"@]
}

/// The views of a list of strings.
pub open spec fn texts(v: Seq<String>) -> Seq<Seq<char>> {
    v.map_values(|s: String| s@)
}

/// A binary at `path`, with no environment override, started in server mode.
pub open spec fn is_server_binary(b: LanguageServerBinary, path: Seq<char>) -> bool {
    &&& b.path@ == path
    &&& b.env is None
    &&& texts(b.arguments@) == server_mode_arguments()
}

/// A binary at `path`, with no environment override and no arguments.
pub open spec fn is_bare_binary(b: LanguageServerBinary, path: Seq<char>) -> bool {
    &&& b.path@ == path
    &&& b.env is None
    &&& b.arguments@.len() == 0
}

/// The file name of the cache entry that holds one version of a tool.
pub open spec fn entry_name(tool: Seq<char>, version: Seq<char>) -> Seq<char> {
    tool + "-"@ + version
}

/// The path of an entry inside a container directory.
pub open spec fn entry_path(container: Seq<char>, name: Seq<char>) -> Seq<char> {
    container + "/"@ + name
}

/// `first`, a separator and `second`, one after the other.
pub fn joined(first: &str, separator: &str, second: &str) -> (r: String)
    ensures
        r@ == first@ + separator@ + second@,
{
    let mut r = first.to_owned();
    r.append(separator);
    r.append(second);
    r
}

/// The file name of the cache entry for `version` of `tool`.
pub fn cache_entry_name(tool: &str, version: &str) -> (r: String)
    ensures
        r@ == entry_name(tool@, version@),
{
    joined(tool, "-", version)
}

/// The path of the entry `name` inside `container`.
pub fn cache_entry_path(container: &str, name: &str) -> (r: String)
    ensures
        r@ == entry_path(container@, name@),
{
    joined(container, "/", name)
}

/// The arguments that put the tool into server mode.
pub fn server_binary_arguments() -> (r: Vec<String>)
    ensures
        texts(r@) == server_mode_arguments(),
{
    let mut r: Vec<String> = Vec::new();
    r.push(String::from_str("server"));
    assert(texts(r@) =~= server_mode_arguments());
    r
}

/// The binary at `path`, started in server mode.
pub fn server_binary(path: String) -> (r: LanguageServerBinary)
    ensures
        is_server_binary(r, path@),
{
    LanguageServerBinary { path, env: None, arguments: server_binary_arguments() }
}

} // verus!
