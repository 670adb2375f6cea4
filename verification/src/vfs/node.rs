//! Nodes of the CosmicOS virtual file system.

use vstd::prelude::*;
use vstd::slice::slice_to_vec;
use vstd::string::{StrSliceExecFns, StringSliceAdditionalSpecFns};

verus! {

/// Whether a node is a directory or a file.
#[derive(Debug, Clone, Copy, PartialEq, Eq, Structural)]
pub enum NodeKind {
    Directory,
    File,
}

/// A file (with its bytes) or a directory (with its children).
pub struct FsNode {
    pub name: String,
    pub kind: NodeKind,
    /// Contents (files only).
    pub data: Vec<u8>,
    /// Children (directories only).
    pub children: Vec<FsNode>,
}

/// Whether `a` and `b` are the same string.
pub fn str_eq(a: &str, b: &str) -> (r: bool)
    ensures
        r == (a@ == b@),
{
    let x = a.as_bytes();
    let y = b.as_bytes();
    proof {
        vstd::utf8::encode_utf8_decode_utf8(a@);
        vstd::utf8::encode_utf8_decode_utf8(b@);
    }
    if x.len() != y.len() {
        return false;
    }
    let mut i: usize = 0;
    while i < x.len()
        invariant
            x@ == a.spec_bytes(),
            y@ == b.spec_bytes(),
            x@.len() == y@.len(),
            i <= x@.len(),
            forall|j: int| 0 <= j < i ==> x@[j] == y@[j],
        decreases x@.len() - i,
    {
        if x[i] != y[i] {
            return false;
        }
        i = i + 1;
    }
    assert(x@ =~= y@);
    true
}

/// The position of the first node named `name` in `nodes`, if any.
pub open spec fn first_named(nodes: Seq<FsNode>, name: Seq<char>) -> Option<int> {
    if exists|i: int| 0 <= i < nodes.len() && (#[trigger] nodes[i]).name@ == name {
        Some(choose|i: int| 0 <= i < nodes.len() && nodes[i].name@ == name
            && forall|j: int| 0 <= j < i ==> (#[trigger] nodes[j]).name@ != name)
    } else {
        None
    }
}

/// The position just after the last `.` of `s`, if it has one.
pub open spec fn after_last_dot(s: Seq<char>) -> Option<int> {
    if exists|i: int| 0 <= i < s.len() && s[i] == '.' {
        Some(choose|i: int| 0 <= i < s.len() && s[i] == '.' && forall|j: int| i < j < s.len() ==> s[j] != '.')
    } else {
        None
    }
}

/// `first_named` is the position of the first node with the name.
pub proof fn lemma_first_named(nodes: Seq<FsNode>, name: Seq<char>, i: int)
    requires
        0 <= i < nodes.len(),
        nodes[i].name@ == name,
        forall|j: int| 0 <= j < i ==> (#[trigger] nodes[j]).name@ != name,
    ensures
        first_named(nodes, name) == Some(i),
{
    let k = choose|k: int| 0 <= k < nodes.len() && nodes[k].name@ == name
        && forall|j: int| 0 <= j < k ==> (#[trigger] nodes[j]).name@ != name;
    assert(0 <= k < nodes.len() && nodes[k].name@ == name
        && forall|j: int| 0 <= j < k ==> (#[trigger] nodes[j]).name@ != name);
    if k < i {
        assert(nodes[k].name@ != name);
    }
    if i < k {
        assert(nodes[i].name@ != name);
    }
}

/// `after_last_dot` is the position of the last dot.
pub proof fn lemma_last_dot(s: Seq<char>, i: int)
    requires
        0 <= i < s.len(),
        s[i] == '.',
        forall|j: int| i < j < s.len() ==> s[j] != '.',
    ensures
        after_last_dot(s) == Some(i),
{
    let k = choose|k: int| 0 <= k < s.len() && s[k] == '.' && forall|j: int| k < j < s.len() ==> s[j] != '.';
    assert(0 <= k < s.len() && s[k] == '.' && forall|j: int| k < j < s.len() ==> s[j] != '.');
    if k < i {
        assert(s[i] != '.');
    }
    if i < k {
        assert(s[k] != '.');
    }
}

impl FsNode {
    /// A new empty directory.
    pub fn dir(name: &str) -> (n: FsNode)
        ensures
            n.name@ == name@,
            n.kind == NodeKind::Directory,
            n.data@ == Seq::<u8>::empty(),
            n.children@ == Seq::<FsNode>::empty(),
    {
        FsNode { name: name.to_owned(), kind: NodeKind::Directory, data: Vec::new(), children: Vec::new() }
    }

    /// A new file with the given contents.
    pub fn file(name: &str, data: &[u8]) -> (n: FsNode)
        ensures
            n.name@ == name@,
            n.kind == NodeKind::File,
            n.data@ == data@,
            n.children@ == Seq::<FsNode>::empty(),
    {
        FsNode { name: name.to_owned(), kind: NodeKind::File, data: slice_to_vec(data), children: Vec::new() }
    }

    /// Whether the node is a directory.
    pub fn is_dir(&self) -> (b: bool)
        ensures
            b == (self.kind == NodeKind::Directory),
    {
        self.kind == NodeKind::Directory
    }

    /// Whether the node is a file.
    pub fn is_file(&self) -> (b: bool)
        ensures
            b == (self.kind == NodeKind::File),
    {
        self.kind == NodeKind::File
    }

    /// Appends `child` to a directory's children; a file is left unchanged.
    pub fn add_child(&mut self, child: FsNode)
        ensures
            final(self).name == old(self).name,
            final(self).kind == old(self).kind,
            final(self).data == old(self).data,
            final(self).children@ == if old(self).kind == NodeKind::Directory {
                old(self).children@.push(child)
            } else {
                old(self).children@
            },
    {
        if self.is_dir() {
            self.children.push(child);
        }
    }

    /// The first child named `name`, if any.
    pub fn child(&self, name: &str) -> (r: Option<&FsNode>)
        ensures
            match first_named(self.children@, name@) {
                Some(i) => 0 <= i < self.children@.len() && self.children@[i].name@ == name@
                    && (forall|j: int| 0 <= j < i ==> (#[trigger] self.children@[j]).name@ != name@)
                    && r == Some(&self.children@[i]),
                None => (forall|j: int| 0 <= j < self.children@.len() ==> (#[trigger] self.children@[j]).name@ != name@)
                    && r is None,
            },
    {
        let mut i: usize = 0;
        while i < self.children.len()
            invariant
                i <= self.children@.len(),
                forall|j: int| 0 <= j < i ==> (#[trigger] self.children@[j]).name@ != name@,
            decreases self.children@.len() - i,
        {
            if str_eq(self.children[i].name.as_str(), name) {
                proof { lemma_first_named(self.children@, name@, i as int); }
                return Some(&self.children[i]);
            }
            i = i + 1;
        }
        None
    }

    /// The first child named `name`, if any, for modification.
    pub fn child_mut(&mut self, name: &str) -> (r: Option<&mut FsNode>)
        ensures
            final(self).name == old(self).name,
            final(self).kind == old(self).kind,
            final(self).data == old(self).data,
            match first_named(old(self).children@, name@) {
                Some(i) => 0 <= i < old(self).children@.len() && old(self).children@[i].name@ == name@
                    && (forall|j: int| 0 <= j < i ==> (#[trigger] old(self).children@[j]).name@ != name@)
                    && r is Some && *r->Some_0 == old(self).children@[i]
                    && final(self).children@ == old(self).children@.update(i, *final(r->Some_0)),
                None => (forall|j: int| 0 <= j < old(self).children@.len() ==> (#[trigger] old(self).children@[j]).name@ != name@)
                    && r is None && final(self).children@ == old(self).children@,
            },
    {
        let mut i: usize = 0;
        while i < self.children.len()
            invariant
                *self == *old(self),
                i <= self.children@.len(),
                forall|j: int| 0 <= j < i ==> (#[trigger] self.children@[j]).name@ != name@,
            decreases self.children@.len() - i,
        {
            if str_eq(self.children[i].name.as_str(), name) {
                proof { lemma_first_named(self.children@, name@, i as int); }
                return Some(&mut self.children[i]);
            }
            i = i + 1;
        }
        None
    }

    /// The extension of the name: what follows its last `.`, if it has one.
    pub fn extension(&self) -> (r: Option<&str>)
        ensures
            match after_last_dot(self.name@) {
                Some(i) => 0 <= i < self.name@.len() && self.name@[i] == '.'
                    && (forall|j: int| i < j < self.name@.len() ==> self.name@[j] != '.')
                    && r is Some && r->Some_0@ == self.name@.subrange(i + 1, self.name@.len() as int),
                None => (forall|j: int| 0 <= j < self.name@.len() ==> self.name@[j] != '.') && r is None,
            },
    {
        let s = self.name.as_str();
        let n = s.unicode_len();
        let mut i: usize = n;
        while i > 0
            invariant
                i <= n,
                n == self.name@.len(),
                s@ == self.name@,
                forall|j: int| i <= j < n ==> self.name@[j] != '.',
            decreases i,
        {
            if s.get_char(i - 1) == '.' {
                proof { lemma_last_dot(self.name@, i - 1); }
                return Some(s.substring_char(i, n));
            }
            i = i - 1;
        }
        None
    }

    /// Size: the number of bytes of a file, the number of children of a
    /// directory.
    pub fn size(&self) -> (n: usize)
        ensures
            n == if self.kind == NodeKind::File { self.data@.len() } else { self.children@.len() },
    {
        if self.is_file() {
            self.data.len()
        } else {
            self.children.len()
        }
    }

    /// Replaces a file's contents with `data`; a directory is left unchanged.
    pub fn write(&mut self, data: &[u8])
        ensures
            final(self).name == old(self).name,
            final(self).kind == old(self).kind,
            final(self).children == old(self).children,
            final(self).data@ == if old(self).kind == NodeKind::File { data@ } else { old(self).data@ },
    {
        if self.is_file() {
            self.data = slice_to_vec(data);
        }
    }

    /// Appends `data` to a file's contents; a directory is left unchanged.
    pub fn append(&mut self, data: &[u8])
        ensures
            final(self).name == old(self).name,
            final(self).kind == old(self).kind,
            final(self).children == old(self).children,
            final(self).data@ == if old(self).kind == NodeKind::File { old(self).data@ + data@ } else { old(self).data@ },
    {
        if self.is_file() {
            let ghost before = self.data@;
            let mut i: usize = 0;
            while i < data.len()
                invariant
                    self.kind == NodeKind::File,
                    self.name == old(self).name,
                    self.kind == old(self).kind,
                    self.children == old(self).children,
                    before == old(self).data@,
                    i <= data@.len(),
                    self.data@ == before + data@.subrange(0, i as int),
                decreases data@.len() - i,
            {
                self.data.push(data[i]);
                i = i + 1;
                assert(self.data@ =~= before + data@.subrange(0, i as int));
            }
            assert(data@.subrange(0, data@.len() as int) =~= data@);
        }
    }
}

} // verus!
