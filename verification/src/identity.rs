//! Identity files and system prompts: the loaded text of an agent's
//! identity documents, and its rendering for injection into system prompts.
//! Reading the files from disk is the runtime's business.

use vstd::prelude::*;

verus! {

/// Loaded identity files for an agent.
#[derive(Clone, Debug)]
pub struct Identity {
    pub soul: Option<String>,
    pub identity: Option<String>,
    pub user: Option<String>,
}

/// One optional identity section, rendered under its heading.
pub open spec fn identity_section(heading: Seq<char>, body: Option<String>) -> Seq<char> {
    match body {
        Some(text) => heading + text@ + "\n\n"@,
        None => Seq::empty(),
    }
}

impl Identity {
    /// What render() produces: each present file under its heading, in a
    /// fixed order.
    pub open spec fn spec_render(self) -> Seq<char> {
        identity_section("## Soul\n\n"@, self.soul) + identity_section(
            "## Identity\n\n"@,
            self.identity,
        ) + identity_section("## User\n\n"@, self.user)
    }

    /// Render identity context for injection into system prompts.
    pub fn render(&self) -> (r: String)
        ensures
            r@ == self.spec_render(),
    {
        let mut out = String::new();
        match &self.soul {
            Some(soul) => {
                out.append("## Soul\n\n");
                out.append(soul.as_str());
                out.append("\n\n");
            },
            None => {},
        }
        match &self.identity {
            Some(identity) => {
                out.append("## Identity\n\n");
                out.append(identity.as_str());
                out.append("\n\n");
            },
            None => {},
        }
        match &self.user {
            Some(user) => {
                out.append("## User\n\n");
                out.append(user.as_str());
                out.append("\n\n");
            },
            None => {},
        }
        out
    }
}

impl Default for Identity {
    /// No identity files present: renders to nothing.
    fn default() -> (r: Self)
        ensures
            r.soul is None,
            r.identity is None,
            r.user is None,
            r.spec_render() == Seq::<char>::empty(),
    {
        let r = Identity { soul: None, identity: None, user: None };
        proof {
            assert(r.spec_render() =~= Seq::<char>::empty());
        }
        r
    }
}

/// Container for all loaded process-type prompts.
#[derive(Clone, Debug)]
pub struct Prompts {
    pub channel: String,
    pub branch: String,
    pub worker: String,
    pub cortex: String,
    pub compactor: String,
}

} // verus!
