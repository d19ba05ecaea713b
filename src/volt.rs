use vstd::prelude::*;
use vstd::string::StringExecFns;

verus! {

/// The identifier of a package: its author and name joined by a dot.
pub open spec fn volt_id(author: Seq<char>, name: Seq<char>) -> Seq<char> {
    author + seq!['.'] + name
}

/// Builds `author.name` from the two parts.
fn join_id(author: &String, name: &String) -> (r: String)
    ensures
        r@ == volt_id(author@, name@),
{
    let mut s = author.clone();
    s.append(".");
    s.append(name.as_str());
    proof {
        reveal_strlit(".");
    }
    s
}

/// A package as the remote catalog describes it.
pub struct VoltInfo {
    pub name: String,
    pub version: String,
    pub display_name: String,
    pub author: String,
    pub description: String,
    pub repository: Option<String>,
    /// Whether the package ships a sandboxed binary module.
    pub wasm: bool,
}

impl VoltInfo {
    pub open spec fn spec_id(&self) -> Seq<char> {
        volt_id(self.author@, self.name@)
    }

    /// The package's identifier, `author.name`.
    pub fn id(&self) -> (r: String)
        ensures
            r@ == self.spec_id(),
    {
        join_id(&self.author, &self.name)
    }

    /// A field-for-field copy.
    pub fn duplicate(&self) -> (r: VoltInfo)
        ensures
            r == *self,
    {
        VoltInfo {
            name: self.name.clone(),
            version: self.version.clone(),
            display_name: self.display_name.clone(),
            author: self.author.clone(),
            description: self.description.clone(),
            repository: clone_opt(&self.repository),
            wasm: self.wasm,
        }
    }
}

fn clone_opt(o: &Option<String>) -> (r: Option<String>)
    ensures
        r == *o,
{
    match o {
        Some(s) => Some(s.clone()),
        None => None,
    }
}

/// A package as it is installed on the local disk.
pub struct VoltMetadata {
    pub name: String,
    pub version: String,
    pub display_name: String,
    pub author: String,
    pub description: String,
    pub repository: Option<String>,
    /// The embedded binary module, if the package ships one.
    pub wasm: Option<String>,
    /// The directory the package is installed in, if one is recorded.
    pub dir: Option<String>,
}

impl VoltMetadata {
    pub open spec fn spec_id(&self) -> Seq<char> {
        volt_id(self.author@, self.name@)
    }

    /// The package's identifier, `author.name`.
    pub fn id(&self) -> (r: String)
        ensures
            r@ == self.spec_id(),
    {
        join_id(&self.author, &self.name)
    }

    /// The catalog-facing description of the installed package.
    pub open spec fn spec_info(&self) -> VoltInfo {
        VoltInfo {
            name: self.name,
            version: self.version,
            display_name: self.display_name,
            author: self.author,
            description: self.description,
            repository: self.repository,
            wasm: self.wasm is Some,
        }
    }

    /// The catalog-facing description of the installed package.
    pub fn info(&self) -> (r: VoltInfo)
        ensures
            r == self.spec_info(),
            r.spec_id() == self.spec_id(),
    {
        VoltInfo {
            name: self.name.clone(),
            version: self.version.clone(),
            display_name: self.display_name.clone(),
            author: self.author.clone(),
            description: self.description.clone(),
            repository: clone_opt(&self.repository),
            wasm: self.wasm.is_some(),
        }
    }

    /// A field-for-field copy.
    pub fn duplicate(&self) -> (r: VoltMetadata)
        ensures
            r == *self,
    {
        VoltMetadata {
            name: self.name.clone(),
            version: self.version.clone(),
            display_name: self.display_name.clone(),
            author: self.author.clone(),
            description: self.description.clone(),
            repository: clone_opt(&self.repository),
            wasm: clone_opt(&self.wasm),
            dir: clone_opt(&self.dir),
        }
    }
}

/// The kind of operation under way on a package.
#[derive(Clone, Copy, Debug, PartialEq, Eq, Structural)]
pub enum PluginOperation {
    Install,
    Remove,
}

/// An install or removal in progress, with the error it met, if any (empty
/// when none).
pub struct PluginInstallStatus {
    pub operation: PluginOperation,
    pub error: String,
}

/// One page of the remote catalog: its entries and the server's total count.
pub struct PluginsInfo {
    pub plugins: Vec<VoltInfo>,
    pub total: usize,
}

} // verus!
