//! Plugins: the directories of the plugins folder that hold a `plugin.exe`, each served on a
//! port of its own.
use vstd::prelude::*;

use crate::decimal::{decimal_digits, push_decimal};

verus! {

/// An entry of the plugins folder.
#[derive(Clone, Debug)]
pub enum PluginDirEntry {
    /// The entry could not be read.
    Unreadable,
    /// An entry named `name`: whether it is a directory, and whether that directory holds a
    /// `plugin.exe` file.
    Found { name: String, is_dir: bool, has_executable: bool },
}

/// A loaded plugin: its name and the port it serves on.
#[derive(Clone, Debug)]
pub struct PluginSlot {
    pub name: String,
    pub port: u16,
}

/// The port of the first plugin; each further plugin gets the next port.
pub open spec fn first_plugin_port() -> int {
    50500
}

/// The names of the plugins among the entries, in the order of the entries.
pub open spec fn plugin_names(entries: Seq<PluginDirEntry>) -> Seq<Seq<char>>
    decreases entries.len(),
{
    if entries.len() == 0 {
        Seq::empty()
    } else {
        let rest = plugin_names(entries.drop_last());
        match entries.last() {
            PluginDirEntry::Found { name, is_dir: true, has_executable: true } => rest.push(
                name@,
            ),
            _ => rest,
        }
    }
}

proof fn lemma_plugin_names_prefix(entries: Seq<PluginDirEntry>, k: int)
    requires
        0 <= k <= entries.len(),
    ensures
        plugin_names(entries.take(k)).len() <= plugin_names(entries).len(),
    decreases entries.len(),
{
    if k < entries.len() {
        let shorter = entries.drop_last();
        assert(shorter.take(k) =~= entries.take(k));
        lemma_plugin_names_prefix(shorter, k);
    } else {
        assert(entries.take(k) =~= entries);
    }
}

/// Loads the plugins of the folder's entries: every directory with a `plugin.exe`, in the
/// order of the entries, on the ports 50500, 50501, and so on.
pub fn load(entries: &Vec<PluginDirEntry>) -> (r: Vec<PluginSlot>)
    requires
        plugin_names(entries@).len() <= 65535 - 50500,
    ensures
        r@.len() == plugin_names(entries@).len(),
        forall|i: int|
            0 <= i < r@.len() ==> (#[trigger] r@[i]).name@ == plugin_names(entries@)[i]
                && r@[i].port == first_plugin_port() + i,
{
    let n = entries.len();
    let mut plugins: Vec<PluginSlot> = Vec::new();
    let mut next_port: u16 = 50500;
    let mut i: usize = 0;
    while i < n
        invariant
            n == entries@.len(),
            plugin_names(entries@).len() <= 65535 - 50500,
            i <= n,
            plugins@.len() == plugin_names(entries@.take(i as int)).len(),
            next_port == 50500 + plugins@.len(),
            forall|j: int|
                0 <= j < plugins@.len() ==> (#[trigger] plugins@[j]).name@ == plugin_names(
                    entries@.take(i as int),
                )[j] && plugins@[j].port == first_plugin_port() + j,
        decreases n - i,
    {
        proof {
            assert(entries@.take(i + 1).drop_last() =~= entries@.take(i as int));
            lemma_plugin_names_prefix(entries@, i + 1);
        }
        match &entries[i] {
            PluginDirEntry::Found { name, is_dir, has_executable } => {
                if *is_dir && *has_executable {
                    plugins.push(PluginSlot { name: name.clone(), port: next_port });
                    next_port = next_port + 1;
                }
            },
            PluginDirEntry::Unreadable => {},
        }
        i = i + 1;
    }
    assert(entries@.take(n as int) =~= entries@);
    plugins
}

/// The authority that requests for the plugin on `port` are forwarded to.
pub fn plugin_authority(port: u16) -> (r: String)
    ensures
        r@ == "localhost:"@ + decimal_digits(port as nat),
{
    let mut s = String::from_str("localhost:");
    push_decimal(&mut s, port as u64);
    s
}

/// The URI that a request for the plugin on `port` is forwarded to: plain HTTP to the
/// plugin's authority, with the request's path and query, `/` where it has none.
pub fn plugin_uri(port: u16, path_and_query: Option<&str>) -> (r: String)
    ensures
        r@ == "http://"@ + "localhost:"@ + decimal_digits(port as nat) + match path_and_query {
            Some(p) => p@,
            None => "/"@,
        },
{
    let mut s = String::from_str("http://");
    let authority = plugin_authority(port);
    s.append(authority.as_str());
    match path_and_query {
        Some(p) => s.append(p),
        None => s.append("/"),
    }
    s
}

} // verus!
