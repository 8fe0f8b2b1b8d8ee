//! Paths as sequences of components. Every operation here works on whole
//! components, never on the bytes inside one.

use vstd::prelude::*;

verus! {

/// What a component of a path stands for.
pub enum Part {
    /// The root directory, at the front of an absolute path.
    Root,
    /// The directory itself, `.`.
    Cur,
    /// The directory above, `..`.
    Parent,
    /// An entry's name.
    Name(Seq<u8>),
}

/// One component of a path.
#[derive(Debug, PartialEq, Eq, Hash)]
pub enum Component {
    RootDir,
    CurDir,
    ParentDir,
    Normal(Vec<u8>),
}

impl View for Component {
    type V = Part;

    open spec fn view(&self) -> Part {
        match self {
            Component::RootDir => Part::Root,
            Component::CurDir => Part::Cur,
            Component::ParentDir => Part::Parent,
            Component::Normal(name) => Part::Name(name@),
        }
    }
}

/// Whether two byte strings hold the same bytes.
pub fn same_bytes(a: &[u8], b: &[u8]) -> (same: bool)
    ensures
        same == (a@ == b@),
{
    if a.len() != b.len() {
        return false;
    }
    let mut i: usize = 0;
    while i < a.len()
        invariant
            a@.len() == b@.len(),
            i <= a@.len(),
            a@.take(i as int) == b@.take(i as int),
        decreases a@.len() - i,
    {
        if a[i] != b[i] {
            return false;
        }
        assert(a@.take(i + 1) == a@.take(i as int).push(a@[i as int]));
        assert(b@.take(i + 1) == b@.take(i as int).push(b@[i as int]));
        i += 1;
    }
    assert(a@.take(i as int) == a@);
    assert(b@.take(i as int) == b@);
    true
}

/// A copy of a byte string.
pub fn copy_bytes(bytes: &[u8]) -> (copy: Vec<u8>)
    ensures
        copy@ == bytes@,
{
    let mut copy: Vec<u8> = Vec::new();
    let mut i: usize = 0;
    while i < bytes.len()
        invariant
            i <= bytes@.len(),
            copy@ == bytes@.take(i as int),
        decreases bytes@.len() - i,
    {
        copy.push(bytes[i]);
        assert(bytes@.take(i + 1) == bytes@.take(i as int).push(bytes@[i as int]));
        i += 1;
    }
    assert(bytes@.take(i as int) == bytes@);
    copy
}

impl Clone for Component {
    fn clone(&self) -> (copy: Component)
        ensures
            copy@ == self@,
    {
        match self {
            Component::RootDir => Component::RootDir,
            Component::CurDir => Component::CurDir,
            Component::ParentDir => Component::ParentDir,
            Component::Normal(name) => Component::Normal(copy_bytes(name.as_slice())),
        }
    }
}

impl Component {
    /// Whether two components stand for the same thing.
    pub fn same_as(&self, other: &Component) -> (same: bool)
        ensures
            same == (self@ == other@),
    {
        match (self, other) {
            (Component::RootDir, Component::RootDir) => true,
            (Component::CurDir, Component::CurDir) => true,
            (Component::ParentDir, Component::ParentDir) => true,
            (Component::Normal(a), Component::Normal(b)) => same_bytes(a.as_slice(), b.as_slice()),
            _ => false,
        }
    }
}

/// A path after one more component was pushed onto it: the root replaces
/// everything, `.` only shows on an empty path, anything else is appended.
pub open spec fn pushed(base: Seq<Part>, part: Part) -> Seq<Part> {
    match part {
        Part::Root => seq![Part::Root],
        Part::Cur => if base.len() == 0 {
            seq![Part::Cur]
        } else {
            base
        },
        _ => base.push(part),
    }
}

/// A path after the components of `rest` were pushed onto it, first to last.
pub open spec fn pushed_all(base: Seq<Part>, rest: Seq<Part>) -> Seq<Part>
    decreases rest.len(),
{
    if rest.len() == 0 {
        base
    } else {
        pushed(pushed_all(base, rest.drop_last()), rest.last())
    }
}

/// Whether every component is a name or `..`, as in what follows the front of a path.
pub open spec fn plain(rest: Seq<Part>) -> bool {
    forall|i: int| 0 <= i < rest.len() ==> rest[i] != Part::Root && rest[i] != Part::Cur
}

/// `path` with its first `old_prefix_len` components replaced by `new_prefix`.
pub open spec fn changed_prefix(path: Seq<Part>, old_prefix_len: int, new_prefix: Seq<Part>) -> Seq<
    Part,
> {
    if old_prefix_len <= path.len() {
        pushed_all(new_prefix, path.skip(old_prefix_len))
    } else {
        new_prefix
    }
}

/// Pushing plain components appends them.
pub proof fn pushed_all_plain(base: Seq<Part>, rest: Seq<Part>)
    requires
        plain(rest),
    ensures
        pushed_all(base, rest) == base + rest,
    decreases rest.len(),
{
    if rest.len() == 0 {
        assert(base + rest == base);
    } else {
        pushed_all_plain(base, rest.drop_last());
        assert(base + rest == (base + rest.drop_last()).push(rest.last()));
    }
}

/// A path, relative or absolute.
#[derive(Debug, PartialEq, Eq, Hash)]
pub struct FsPath {
    parts: Vec<Component>,
}

impl View for FsPath {
    type V = Seq<Part>;

    closed spec fn view(&self) -> Seq<Part> {
        self.parts@.map_values(|c: Component| c@)
    }
}

impl Clone for FsPath {
    fn clone(&self) -> (copy: FsPath)
        ensures
            copy@ == self@,
    {
        let mut parts: Vec<Component> = Vec::new();
        let mut i: usize = 0;
        while i < self.parts.len()
            invariant
                i <= self.parts@.len(),
                parts@.len() == i,
                forall|j: int| 0 <= j < i ==> parts@[j]@ == self.parts@[j]@,
            decreases self.parts@.len() - i,
        {
            parts.push(self.parts[i].clone());
            i += 1;
        }
        let copy = FsPath { parts };
        assert(copy@ =~= self@);
        copy
    }
}

impl FsPath {
    /// The empty path.
    pub fn new() -> (path: FsPath)
        ensures
            path@ == Seq::<Part>::empty(),
    {
        let path = FsPath { parts: Vec::new() };
        assert(path@ =~= Seq::<Part>::empty());
        path
    }

    /// The path that holds what comes of pushing `components` onto the empty path.
    pub fn from_components(components: &Vec<Component>) -> (path: FsPath)
        ensures
            path@ == pushed_all(Seq::<Part>::empty(), components@.map_values(|c: Component| c@)),
    {
        let mut path = FsPath::new();
        let ghost all = components@.map_values(|c: Component| c@);
        let mut i: usize = 0;
        while i < components.len()
            invariant
                i <= components@.len(),
                all == components@.map_values(|c: Component| c@),
                path@ == pushed_all(Seq::<Part>::empty(), all.take(i as int)),
            decreases components@.len() - i,
        {
            path.push(components[i].clone());
            assert(all.take(i + 1).drop_last() == all.take(i as int));
            i += 1;
        }
        assert(all.take(i as int) == all);
        path
    }

    /// The components of this path.
    pub fn components(&self) -> (components: &Vec<Component>)
        ensures
            components@.map_values(|c: Component| c@) == self@,
    {
        &self.parts
    }

    /// How many components this path has.
    pub fn len(&self) -> (len: usize)
        ensures
            len == self@.len(),
    {
        self.parts.len()
    }

    /// Pushes one component as `pushed` says.
    pub fn push(&mut self, component: Component)
        ensures
            final(self)@ == pushed(old(self)@, component@),
    {
        match component {
            Component::RootDir => {
                self.parts.clear();
                self.parts.push(Component::RootDir);
                assert(self@ =~= seq![Part::Root]);
            },
            Component::CurDir => {
                if self.parts.len() == 0 {
                    self.parts.push(Component::CurDir);
                    assert(self@ =~= seq![Part::Cur]);
                }
            },
            other => {
                self.parts.push(other);
                assert(self@ =~= old(self)@.push(other@));
            },
        }
    }

    /// Pushes an entry's name.
    pub fn push_name(&mut self, name: &[u8])
        ensures
            final(self)@ == old(self)@.push(Part::Name(name@)),
    {
        self.push(Component::Normal(copy_bytes(name)));
    }

    /// Drops the last component, if there is one.
    pub fn pop(&mut self)
        ensures
            final(self)@ == if old(self)@.len() == 0 {
                old(self)@
            } else {
                old(self)@.drop_last()
            },
    {
        if self.parts.len() > 0 {
            self.parts.pop();
            assert(self@ =~= old(self)@.drop_last());
        }
    }

    /// Whether the path starts at the root.
    pub fn is_absolute(&self) -> (absolute: bool)
        ensures
            absolute == (self@.len() > 0 && self@[0] == Part::Root),
    {
        if self.parts.len() == 0 {
            false
        } else {
            match &self.parts[0] {
                Component::RootDir => true,
                _ => false,
            }
        }
    }

    /// Whether both paths have the same components.
    pub fn same_as(&self, other: &FsPath) -> (same: bool)
        ensures
            same == (self@ == other@),
    {
        if self.parts.len() != other.parts.len() {
            return false;
        }
        let same = other.starts_with(self);
        assert(same ==> self@ =~= other@);
        same
    }

    /// Whether the components of `prefix` are the first components of this path.
    pub fn starts_with(&self, prefix: &FsPath) -> (starts: bool)
        ensures
            starts == prefix@.is_prefix_of(self@),
    {
        if prefix.parts.len() > self.parts.len() {
            return false;
        }
        let mut i: usize = 0;
        while i < prefix.parts.len()
            invariant
                prefix.parts@.len() <= self.parts@.len(),
                i <= prefix.parts@.len(),
                forall|j: int| 0 <= j < i ==> self@[j] == prefix@[j],
            decreases prefix.parts@.len() - i,
        {
            if !self.parts[i].same_as(&prefix.parts[i]) {
                assert(self@[i as int] != prefix@[i as int]);
                return false;
            }
            i += 1;
        }
        assert(prefix@ =~= self@.subrange(0, prefix@.len() as int));
        true
    }

    /// The path without its last component. The empty path and the root have none.
    pub fn parent(&self) -> (parent: Option<FsPath>)
        ensures
            parent.is_some() <==> (self@.len() > 0 && self@.last() != Part::Root),
            parent matches Some(p) ==> p@ == self@.drop_last(),
    {
        let n = self.parts.len();
        if n == 0 {
            return None;
        }
        match &self.parts[n - 1] {
            Component::RootDir => None,
            _ => {
                let mut p = self.clone();
                p.pop();
                Some(p)
            },
        }
    }

    /// The name in the last component, where that is a name.
    pub fn file_name(&self) -> (name: Option<Vec<u8>>)
        ensures
            name.is_some() <==> (self@.len() > 0 && self@.last() is Name),
            name matches Some(n) ==> self@.last() == Part::Name(n@),
    {
        let n = self.parts.len();
        if n == 0 {
            return None;
        }
        match &self.parts[n - 1] {
            Component::Normal(name) => Some(copy_bytes(name.as_slice())),
            _ => None,
        }
    }
}

/// Replaces the first `old_prefix_len` components of `path` by `new_prefix`.
pub fn change_prefix(path: &FsPath, old_prefix_len: usize, new_prefix: &FsPath) -> (res: FsPath)
    ensures
        res@ == changed_prefix(path@, old_prefix_len as int, new_prefix@),
{
    let mut res = new_prefix.clone();
    if old_prefix_len > path.len() {
        return res;
    }
    let ghost rest = path@.skip(old_prefix_len as int);
    let mut i: usize = old_prefix_len;
    while i < path.parts.len()
        invariant
            old_prefix_len <= i <= path@.len(),
            path@.len() == path.parts@.len(),
            rest == path@.skip(old_prefix_len as int),
            res@ == pushed_all(new_prefix@, rest.take(i - old_prefix_len)),
        decreases path@.len() - i,
    {
        res.push(path.parts[i].clone());
        assert(rest.take(i + 1 - old_prefix_len).drop_last() == rest.take(i - old_prefix_len));
        i += 1;
    }
    assert(rest.take(i - old_prefix_len) == rest);
    res
}

/// A replacement of one prefix by another, to be applied to many paths.
pub struct PrefixChange {
    old_prefix: FsPath,
    new_prefix: FsPath,
}

impl PrefixChange {
    /// The prefix that is replaced.
    pub closed spec fn old_prefix(&self) -> Seq<Part> {
        self.old_prefix@
    }

    /// The prefix that is put in its place.
    pub closed spec fn new_prefix(&self) -> Seq<Part> {
        self.new_prefix@
    }

    /// Whether `path` starts with the prefix that is to be replaced.
    pub fn applies_to(&self, path: &FsPath) -> (applies: bool)
        ensures
            applies == self.old_prefix().is_prefix_of(path@),
    {
        path.starts_with(&self.old_prefix)
    }

    /// `path` with the old prefix replaced by the new one.
    pub fn apply(&self, path: &FsPath) -> (res: FsPath)
        requires
            self.old_prefix().is_prefix_of(path@),
        ensures
            res@ == changed_prefix(path@, self.old_prefix().len() as int, self.new_prefix()),
    {
        change_prefix(path, self.old_prefix.len(), &self.new_prefix)
    }
}

/// Prepares the replacement of the prefix `old_prefix` by `new_prefix`.
pub fn change_prefixes(old_prefix: &FsPath, new_prefix: &FsPath) -> (change: PrefixChange)
    ensures
        change.old_prefix() == old_prefix@,
        change.new_prefix() == new_prefix@,
{
    PrefixChange { old_prefix: old_prefix.clone(), new_prefix: new_prefix.clone() }
}

/// Replacing a prefix of at least one component keeps the rest of the path as it
/// was: the result is the new prefix followed by what came after the old one.
pub proof fn changed_prefix_is_concatenation(
    path: Seq<Part>,
    old_prefix: Seq<Part>,
    new_prefix: Seq<Part>,
)
    requires
        old_prefix.is_prefix_of(path),
        plain(path.skip(old_prefix.len() as int)),
    ensures
        changed_prefix(path, old_prefix.len() as int, new_prefix) == new_prefix + path.skip(
            old_prefix.len() as int,
        ),
{
    pushed_all_plain(new_prefix, path.skip(old_prefix.len() as int));
}

/// Replacing a prefix by itself changes nothing.
pub proof fn changed_prefix_identity(path: Seq<Part>, prefix: Seq<Part>)
    requires
        prefix.is_prefix_of(path),
        plain(path.skip(prefix.len() as int)),
    ensures
        changed_prefix(path, prefix.len() as int, prefix) == path,
{
    changed_prefix_is_concatenation(path, prefix, prefix);
    assert(prefix + path.skip(prefix.len() as int) =~= path);
}

} // verus!
