use vstd::prelude::*;
use crate::paths::{find_separator, first_separator_at, join_path, join_spec, lemma_first_separator_unique, text_eq};

verus! {

/// The configuration of a workspace: where things live and how the inbox is sorted.
#[derive(Debug, Clone)]
pub struct Config {
    pub paths: Paths,
    pub rules: Rules,
    pub organize: Organize,
    pub ctf: CtfConfig,
}

/// Explicit path configuration. Every directory but the workspace has a default under it.
#[derive(Debug, Clone)]
pub struct Paths {
    pub workspace: String,
    pub inbox: Option<String>,
    pub projects: Option<String>,
    pub areas: Option<String>,
    pub resources: Option<String>,
    pub archives: Option<String>,
    /// Explicit CTF root path (defaults to `CTFs` under the projects directory).
    pub ctf_root: Option<String>,
    /// Additional named paths for rules, as (key, path) pairs. Keys are not
    /// required to be distinct: a key names the path of its first entry.
    pub custom: Vec<(String, String)>,
}

/// The ordered list of inbox rules.
#[derive(Debug, Clone)]
pub struct Rules {
    pub clean: Vec<CleanRule>,
}

/// One inbox rule: entries whose name matches `pattern` go to the directory that `target` names.
#[derive(Debug, Clone)]
pub struct CleanRule {
    pub pattern: String,
    pub target: String,
}

/// Where organized material goes inside the workspace.
#[derive(Debug, Clone)]
pub struct Organize {
    pub ctf_dir: String,
}

/// Defaults for CTF event folders.
#[derive(Debug, Clone)]
pub struct CtfConfig {
    pub default_categories: Vec<String>,
    pub template_file: Option<String>,
}

/// An explicitly configured directory, or `default_name` under the workspace.
pub open spec fn dir_or(explicit: Option<String>, workspace: Seq<char>, default_name: Seq<char>) -> Seq<char> {
    match explicit {
        Some(p) => p@,
        None => join_spec(workspace, default_name),
    }
}

/// `j` is the first entry of `custom` whose key is `key`.
pub open spec fn custom_entry_at(custom: Seq<(String, String)>, key: Seq<char>, j: int) -> bool {
    &&& 0 <= j < custom.len()
    &&& custom[j].0@ == key
    &&& forall|k: int| 0 <= k < j ==> custom[k].0@ != key
}

/// The path that `custom` gives for `key`: that of its first entry with this key.
pub open spec fn custom_lookup(custom: Seq<(String, String)>, key: Seq<char>) -> Option<Seq<char>> {
    if exists|j: int| custom_entry_at(custom, key, j) {
        Some(custom[choose|j: int| custom_entry_at(custom, key, j)].1@)
    } else {
        None
    }
}

/// `key` is nested: a non-empty first segment, a separator, then the rest.
pub open spec fn nested_split_at(key: Seq<char>, i: int) -> bool {
    0 < i && first_separator_at(key, i)
}

impl Config {
    /// The projects directory.
    pub open spec fn projects_spec(&self) -> Seq<char> {
        dir_or(self.paths.projects, self.paths.workspace@, "1_Projects"@)
    }

    /// The CTF root directory.
    pub open spec fn ctf_root_spec(&self) -> Seq<char> {
        match self.paths.ctf_root {
            Some(p) => p@,
            None => join_spec(self.projects_spec(), "CTFs"@),
        }
    }

    /// The directory of a single-segment key: a well-known key, a custom key,
    /// or else the key taken as a path under the projects directory.
    pub open spec fn resolve_key_spec(&self, key: Seq<char>) -> Seq<char> {
        let ws = self.paths.workspace@;
        if key == "workspace"@ {
            ws
        } else if key == "inbox"@ {
            dir_or(self.paths.inbox, ws, "0_Inbox"@)
        } else if key == "projects"@ {
            self.projects_spec()
        } else if key == "areas"@ {
            dir_or(self.paths.areas, ws, "2_Areas"@)
        } else if key == "resources"@ {
            dir_or(self.paths.resources, ws, "3_Resources"@)
        } else if key == "archives"@ {
            dir_or(self.paths.archives, ws, "4_Archives"@)
        } else if key == "ctf_root"@ {
            self.ctf_root_spec()
        } else {
            match custom_lookup(self.paths.custom@, key) {
                Some(p) => p,
                None => join_spec(self.projects_spec(), key),
            }
        }
    }

    /// The directory that a key names. A nested key (`first/rest`) resolves its
    /// first segment and joins the rest onto it.
    pub open spec fn resolve_spec(&self, key: Seq<char>) -> Seq<char> {
        if exists|i: int| nested_split_at(key, i) {
            let i = choose|i: int| nested_split_at(key, i);
            join_spec(self.resolve_key_spec(key.take(i)), key.skip(i + 1))
        } else {
            self.resolve_key_spec(key)
        }
    }

    /// Resolves a path key to a directory.
    pub fn resolve_path(&self, key: &str) -> (r: String)
        ensures
            r@ == self.resolve_spec(key@),
    {
        let n = key.unicode_len();
        match find_separator(key) {
            Some(i) => {
                if i > 0 {
                    proof {
                        assert(nested_split_at(key@, i as int));
                        let k = choose|k: int| nested_split_at(key@, k);
                        lemma_first_separator_unique(key@, i as int, k);
                    }
                    let head = key.substring_char(0, i);
                    let rest = key.substring_char(i + 1, n);
                    let base = self.resolve_key(head);
                    return join_path(base.as_str(), rest);
                }
                proof {
                    assert forall|k: int| !nested_split_at(key@, k) by {
                        if nested_split_at(key@, k) {
                            lemma_first_separator_unique(key@, 0, k);
                        }
                    }
                }
                self.resolve_key(key)
            },
            None => self.resolve_key(key),
        }
    }

    fn explicit_or_default(&self, explicit: &Option<String>, default_name: &str) -> (r: String)
        ensures
            r@ == dir_or(*explicit, self.paths.workspace@, default_name@),
    {
        match explicit {
            Some(p) => p.clone(),
            None => join_path(self.paths.workspace.as_str(), default_name),
        }
    }

    fn projects_dir(&self) -> (r: String)
        ensures
            r@ == self.projects_spec(),
    {
        self.explicit_or_default(&self.paths.projects, "1_Projects")
    }

    fn custom_path(&self, key: &str) -> (r: Option<String>)
        ensures
            match r {
                Some(p) => custom_lookup(self.paths.custom@, key@) == Some(p@),
                None => custom_lookup(self.paths.custom@, key@) is None,
            },
    {
        let custom = &self.paths.custom;
        let mut j: usize = 0;
        while j < custom.len()
            invariant
                custom@ == self.paths.custom@,
                j <= custom@.len(),
                forall|k: int| 0 <= k < j ==> custom@[k].0@ != key@,
            decreases custom@.len() - j,
        {
            if text_eq(custom[j].0.as_str(), key) {
                proof {
                    assert(custom_entry_at(custom@, key@, j as int));
                    let c = choose|c: int| custom_entry_at(custom@, key@, c);
                    if c < j {
                    } else if c > j {
                    }
                    assert(c == j);
                }
                return Some(custom[j].1.clone());
            }
            j += 1;
        }
        None
    }

    fn resolve_key(&self, key: &str) -> (r: String)
        ensures
            r@ == self.resolve_key_spec(key@),
    {
        if text_eq(key, "workspace") {
            self.paths.workspace.clone()
        } else if text_eq(key, "inbox") {
            self.explicit_or_default(&self.paths.inbox, "0_Inbox")
        } else if text_eq(key, "projects") {
            self.projects_dir()
        } else if text_eq(key, "areas") {
            self.explicit_or_default(&self.paths.areas, "2_Areas")
        } else if text_eq(key, "resources") {
            self.explicit_or_default(&self.paths.resources, "3_Resources")
        } else if text_eq(key, "archives") {
            self.explicit_or_default(&self.paths.archives, "4_Archives")
        } else if text_eq(key, "ctf_root") {
            self.ctf_root()
        } else {
            match self.custom_path(key) {
                Some(p) => p,
                None => {
                    let projects = self.projects_dir();
                    join_path(projects.as_str(), key)
                },
            }
        }
    }

    /// The CTF root directory.
    pub fn ctf_root(&self) -> (r: String)
        ensures
            r@ == self.ctf_root_spec(),
    {
        match &self.paths.ctf_root {
            Some(p) => p.clone(),
            None => {
                let projects = self.projects_dir();
                join_path(projects.as_str(), "CTFs")
            },
        }
    }
}

} // verus!
