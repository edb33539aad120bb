//! The plugin server configuration, as far as this crate edits it: removing
//! the servers one plugin contributed. Reading and writing the file the
//! configuration lives in is the caller's concern.

use vstd::prelude::*;

verus! {

/// The configuration document: the plain servers and, optionally, the block
/// the plugin manager maintains.
#[derive(Debug, Clone)]
pub struct McpConfig {
    pub mcp_servers: Vec<(String, McpServer)>,
    pub powers: Option<PowersMcpConfig>,
}

/// The plugin manager's block of servers.
#[derive(Debug, Clone)]
pub struct PowersMcpConfig {
    pub mcp_servers: Vec<(String, PowerMcpServer)>,
}

/// One configured server: started by command, or reached by URL.
#[derive(Debug, Clone)]
pub enum McpServer {
    Command(McpServerCommand),
    Url(McpServerUrl),
}

/// A server started by command.
#[derive(Debug, Clone)]
pub struct McpServerCommand {
    pub command: String,
    pub args: Vec<String>,
    pub env: Vec<(String, String)>,
    pub disabled: bool,
    pub auto_approve: Vec<String>,
}

/// A server reached by URL.
#[derive(Debug, Clone)]
pub struct McpServerUrl {
    pub url: String,
    pub disabled: bool,
    pub disabled_tools: Vec<String>,
}

/// A plugin-contributed server, reached by URL.
#[derive(Debug, Clone)]
pub struct PowerMcpServer {
    pub url: String,
    pub disabled: bool,
    pub disabled_tools: Vec<String>,
}

/// `p` is a prefix of `s`.
pub open spec fn has_prefix(s: Seq<char>, p: Seq<char>) -> bool {
    p.len() <= s.len() && s.subrange(0, p.len() as int) == p
}

/// Whether `p` is a prefix of `s`, decided character by character.
pub fn str_has_prefix(s: &str, p: &str) -> (r: bool)
    ensures
        r == has_prefix(s@, p@),
{
    let s_len = s.unicode_len();
    let p_len = p.unicode_len();
    if p_len > s_len {
        return false;
    }
    for i in 0..p_len
        invariant
            s_len == s@.len(),
            p_len == p@.len(),
            p_len <= s_len,
            forall|j: int| 0 <= j < i ==> s@[j] == p@[j],
    {
        if s.get_char(i) != p.get_char(i) {
            proof {
                assert(s@.subrange(0, p@.len() as int)[i as int] == s@[i as int]);
            }
            return false;
        }
    }
    proof {
        assert(s@.subrange(0, p@.len() as int) =~= p@);
    }
    true
}

/// The key prefix under which one plugin's servers are registered.
pub fn power_key_prefix(power_name: &str) -> (r: String)
    ensures
        r@ == "power-"@ + power_name@ + "-"@,
{
    let mut prefix = String::from_str("power-");
    prefix.append(power_name);
    prefix.append("-");
    prefix
}

impl McpConfig {
    /// Remove every server the named plugin contributed: afterwards the
    /// plugin block holds, in order, exactly the servers whose key does not
    /// start with the plugin's prefix. A configuration without a plugin
    /// block is unchanged.
    pub fn remove_power_mcp(&mut self, power_name: &str)
        ensures
            final(self).mcp_servers@ == old(self).mcp_servers@,
            match old(self).powers {
                Some(block) => final(self).powers matches Some(after) && after.mcp_servers@
                    == block.mcp_servers@.filter(
                    |e: (String, PowerMcpServer)|
                        !has_prefix(e.0@, "power-"@ + power_name@ + "-"@),
                ),
                None => final(self).powers is None,
            },
    {
        let prefix = power_key_prefix(power_name);
        let ghost pv = prefix@;
        match self.powers.take() {
            Some(mut block) => {
                let ghost s = block.mcp_servers@;
                let n = block.mcp_servers.len();
                let mut kept: Vec<(String, PowerMcpServer)> = Vec::new();
                proof {
                    assert(s.skip(0) =~= s);
                    assert(s.take(0) =~= Seq::<(String, PowerMcpServer)>::empty());
                }
                for i in 0..n
                    invariant
                        n == s.len(),
                        block.mcp_servers@ == s.skip(i as int),
                        pv == "power-"@ + power_name@ + "-"@,
                        prefix@ == pv,
                        kept@ == s.take(i as int).filter(
                            |e: (String, PowerMcpServer)| !has_prefix(e.0@, pv),
                        ),
                {
                    proof {
                        assert(s.take(i + 1).drop_last() =~= s.take(i as int));
                        assert(s.take(i + 1).last() == s[i as int]);
                        assert(s.skip(i as int)[0] == s[i as int]);
                        reveal(Seq::filter);
                    }
                    let entry = block.mcp_servers.remove(0);
                    proof {
                        assert(s.skip(i as int).remove(0) =~= s.skip(i + 1));
                    }
                    if !str_has_prefix(entry.0.as_str(), prefix.as_str()) {
                        kept.push(entry);
                    }
                }
                proof {
                    assert(s.take(n as int) =~= s);
                }
                block.mcp_servers = kept;
                self.powers = Some(block);
            },
            None => {},
        }
    }
}

} // verus!
