//! CosmicOS virtual file system: an in-memory tree, RAM only.

pub mod ext;
pub mod node;

use vstd::prelude::*;
use crate::vfs::node::{FsNode, NodeKind};
use vstd::string::StringSliceAdditionalSpecFns;

verus! {

/// The file system: a root directory once initialised.
pub struct Vfs {
    root: Option<FsNode>,
}

impl Vfs {
    /// The root node, once `init` has run.
    pub closed spec fn root(&self) -> Option<FsNode> {
        self.root
    }

    /// A file system that has not been initialised yet.
    pub fn new() -> (v: Vfs)
        ensures
            v.root() is None,
    {
        Vfs { root: None }
    }
}

/// Whether `n` is an empty directory named `name`.
pub open spec fn is_empty_dir(n: FsNode, name: Seq<char>) -> bool {
    &&& n.name@ == name
    &&& n.kind == NodeKind::Directory
    &&& n.data@.len() == 0
    &&& n.children@.len() == 0
}

/// Whether `n` is a file named `name` holding the UTF-8 bytes of `text`.
pub open spec fn is_text_file(n: FsNode, name: Seq<char>, text: &str) -> bool {
    &&& n.name@ == name
    &&& n.kind == NodeKind::File
    &&& n.data@ == text.spec_bytes()
    &&& n.children@.len() == 0
}

/// Whether `n` is a directory named `name` whose children are `count` nodes.
pub open spec fn is_dir_of(n: FsNode, name: Seq<char>, count: nat) -> bool {
    &&& n.name@ == name
    &&& n.kind == NodeKind::Directory
    &&& n.data@.len() == 0
    &&& n.children@.len() == count
}

/// The tree the system starts with: `/` holding `Desktop` (with a welcome
/// text file), the empty user folders `Download`, `Documenti`, `Immagini`,
/// `Cestino`, and `Sistema` with the kernel, configuration and boot log files.
pub open spec fn is_initial_tree(root: FsNode) -> bool {
    let c = root.children@;
    &&& is_dir_of(root, "/"@, 6)
    &&& is_dir_of(c[0], "Desktop"@, 1)
    &&& is_text_file(c[0].children@[0], "Benvenuto.costxt"@, "Benvenuto in CosmicOS!\nPrestazioni spaziali.")
    &&& is_empty_dir(c[1], "Download"@)
    &&& is_empty_dir(c[2], "Documenti"@)
    &&& is_empty_dir(c[3], "Immagini"@)
    &&& is_empty_dir(c[4], "Cestino"@)
    &&& is_dir_of(c[5], "Sistema"@, 3)
    &&& is_text_file(c[5].children@[0], "kernel.cossys"@, "CosmicOS Kernel v0.0.1")
    &&& is_text_file(c[5].children@[1], "config.coscfg"@, "theme=light\nlocale=it")
    &&& is_text_file(c[5].children@[2], "boot.coslog"@, "Avvio completato.")
}

/// Builds the initial tree and installs it as the root.
pub fn init(vfs: &mut Vfs)
    ensures
        final(vfs).root() matches Some(root) && is_initial_tree(root),
{
    let mut root = FsNode::dir("/");

    let mut desktop = FsNode::dir("Desktop");
    desktop.add_child(FsNode::file("Benvenuto.costxt", "Benvenuto in CosmicOS!\nPrestazioni spaziali.".as_bytes()));
    root.add_child(desktop);

    root.add_child(FsNode::dir("Download"));
    root.add_child(FsNode::dir("Documenti"));
    root.add_child(FsNode::dir("Immagini"));
    root.add_child(FsNode::dir("Cestino"));

    let mut sys = FsNode::dir("Sistema");
    sys.add_child(FsNode::file("kernel.cossys", "CosmicOS Kernel v0.0.1".as_bytes()));
    sys.add_child(FsNode::file("config.coscfg", "theme=light\nlocale=it".as_bytes()));
    sys.add_child(FsNode::file("boot.coslog", "Avvio completato.".as_bytes()));
    root.add_child(sys);

    vfs.root = Some(root);
}

/// Runs `f` on the root node and returns its result.
pub fn with_root<F, R>(vfs: &Vfs, f: F) -> (r: R)
    where
        F: FnOnce(&FsNode) -> R,
    requires
        vfs.root() is Some,
        f.requires((&vfs.root()->Some_0,)),
    ensures
        f.ensures((&vfs.root()->Some_0,), r),
{
    let root = vfs.root.as_ref().unwrap();
    f(root)
}

/// Runs `f` on the root node, which it may modify, and returns its result.
pub fn with_root_mut<F, R>(vfs: &mut Vfs, f: F) -> (r: R)
    where
        F: FnOnce(&mut FsNode) -> R,
    requires
        old(vfs).root() is Some,
        forall|n: &mut FsNode| *n == old(vfs).root()->Some_0 ==> #[trigger] f.requires((n,)),
    ensures
        exists|n: &mut FsNode| *n == old(vfs).root()->Some_0 && #[trigger] f.ensures((n,), r)
            && final(vfs).root() == Some(*final(n)),
{
    let root = vfs.root.as_mut().unwrap();
    f(root)
}

} // verus!
