//! Paths of files in a dataset, as their components.
use crate::text::{
    lemma_names_total, lemma_names_transitive, name_before, order_names, same_text, NameOrder,
};
use vstd::prelude::*;
use vstd::string::*;

verus! {

/// A component of a path. A path has a root only at its front, and a mark of the
/// current directory only at its front.
pub enum Part {
    Root,
    Current,
    Parent,
    Normal(String),
}

/// A component, with the name as its characters.
pub enum PartView {
    Root,
    Current,
    Parent,
    Normal(Seq<char>),
}

/// A path.
pub struct VfsPath {
    pub parts: Vec<Part>,
}

impl Part {
    pub open spec fn view(&self) -> PartView {
        match *self {
            Part::Root => PartView::Root,
            Part::Current => PartView::Current,
            Part::Parent => PartView::Parent,
            Part::Normal(name) => PartView::Normal(name@),
        }
    }

    /// A copy of the component.
    pub fn copy(&self) -> (r: Part)
        ensures
            r@ == self@,
    {
        match self {
            Part::Root => Part::Root,
            Part::Current => Part::Current,
            Part::Parent => Part::Parent,
            Part::Normal(name) => Part::Normal(name.clone()),
        }
    }
}

/// The place of a kind of component in the order.
pub open spec fn part_rank(p: PartView) -> int {
    match p {
        PartView::Root => 0,
        PartView::Current => 1,
        PartView::Parent => 2,
        PartView::Normal(_) => 3,
    }
}

/// The order of components: by kind, then by name.
pub open spec fn part_before(a: PartView, b: PartView) -> bool {
    part_rank(a) < part_rank(b) || (a matches PartView::Normal(x) && b matches PartView::Normal(y)
        && name_before(x, y))
}

/// The order of paths: by the first component in which they differ, and the
/// shorter first where there is none.
pub open spec fn path_before(a: Seq<PartView>, b: Seq<PartView>) -> bool
    decreases a.len(),
{
    if b.len() == 0 {
        false
    } else if a.len() == 0 {
        true
    } else {
        part_before(a[0], b[0]) || (a[0] == b[0] && path_before(a.drop_first(), b.drop_first()))
    }
}

/// Of two components one comes first, or they are the same.
proof fn lemma_parts_total(a: PartView, b: PartView)
    ensures
        part_before(a, b) ==> a != b && !part_before(b, a),
        a == b || part_before(a, b) || part_before(b, a),
{
    if let PartView::Normal(x) = a {
        if let PartView::Normal(y) = b {
            lemma_names_total(x, y);
            lemma_names_total(y, x);
        }
    }
}

/// Of two paths one comes first, or they are the same.
pub proof fn lemma_paths_total(a: Seq<PartView>, b: Seq<PartView>)
    ensures
        path_before(a, b) ==> a != b && !path_before(b, a),
        a == b || path_before(a, b) || path_before(b, a),
    decreases a.len(),
{
    if a.len() > 0 && b.len() > 0 {
        lemma_parts_total(a[0], b[0]);
        lemma_paths_total(a.drop_first(), b.drop_first());
        if a.drop_first() == b.drop_first() && a[0] == b[0] {
            assert(a =~= seq![a[0]] + a.drop_first());
            assert(b =~= seq![b[0]] + b.drop_first());
        }
    } else if a.len() == 0 && b.len() == 0 {
        assert(a =~= b);
    }
}

/// A path is before another exactly when it is a shorter beginning of it, or has the
/// earlier component at the first place in which they differ. A root is before a mark of
/// the current directory, that before one of the parent, and that before a name.
pub proof fn lemma_paths_by_first_difference(a: Seq<PartView>, b: Seq<PartView>, k: int)
    requires
        0 <= k <= a.len(),
        k <= b.len(),
        a.take(k) == b.take(k),
        k < a.len() && k < b.len() ==> a[k] != b[k],
    ensures
        path_before(a, b) <==> k < b.len() && (k == a.len() || {
            ||| a[k] is Root
            ||| a[k] is Current && !(b[k] is Root)
            ||| a[k] is Parent && b[k] is Normal
            ||| a[k] matches PartView::Normal(x) && b[k] matches PartView::Normal(y)
                && name_before(x, y)
        }),
    decreases k,
{
    if k > 0 {
        let (x, y) = (a.drop_first(), b.drop_first());
        assert(a[0] == a.take(k)[0] && b[0] == b.take(k)[0]);
        assert(x.take(k - 1) =~= a.take(k).drop_first());
        assert(y.take(k - 1) =~= b.take(k).drop_first());
        lemma_parts_total(a[0], b[0]);
        lemma_paths_by_first_difference(x, y, k - 1);
    }
}

/// A component before a second is before every third that the second is before.
proof fn lemma_parts_transitive(a: PartView, b: PartView, c: PartView)
    requires
        part_before(a, b),
        part_before(b, c),
    ensures
        part_before(a, c),
{
    if let PartView::Normal(x) = a {
        if let PartView::Normal(y) = b {
            if let PartView::Normal(z) = c {
                lemma_names_transitive(x, y, z);
            }
        }
    }
}

/// A path before a second is before every third that the second is before.
pub proof fn lemma_paths_transitive(a: Seq<PartView>, b: Seq<PartView>, c: Seq<PartView>)
    requires
        path_before(a, b),
        path_before(b, c),
    ensures
        path_before(a, c),
    decreases a.len(),
{
    if a.len() > 0 && b.len() > 0 && c.len() > 0 {
        lemma_parts_total(a[0], b[0]);
        lemma_parts_total(b[0], c[0]);
        if a[0] == b[0] && b[0] == c[0] {
            lemma_paths_transitive(a.drop_first(), b.drop_first(), c.drop_first());
        } else if part_before(a[0], b[0]) && part_before(b[0], c[0]) {
            lemma_parts_transitive(a[0], b[0], c[0]);
        }
    }
}

/// A component's place.
fn rank_of(p: &Part) -> (r: u32)
    ensures
        r == part_rank(p@),
{
    match p {
        Part::Root => 0,
        Part::Current => 1,
        Part::Parent => 2,
        Part::Normal(_) => 3,
    }
}

/// How one component stands to another.
fn order_parts(a: &Part, b: &Part) -> (r: NameOrder)
    ensures
        r == NameOrder::Before <==> part_before(a@, b@),
        r == NameOrder::After <==> part_before(b@, a@),
        r == NameOrder::Same <==> a@ == b@,
{
    let x: u32 = rank_of(a);
    let y: u32 = rank_of(b);
    if x < y {
        NameOrder::Before
    } else if y < x {
        NameOrder::After
    } else {
        match (a, b) {
            (Part::Normal(m), Part::Normal(n)) => order_names(m.as_str(), n.as_str()),
            _ => NameOrder::Same,
        }
    }
}

/// Where the last point of a name stands: before its start where there is none.
pub open spec fn last_point(name: Seq<char>) -> int
    decreases name.len(),
{
    if name.len() == 0 {
        -1
    } else if name.last() == '.' {
        name.len() - 1
    } else {
        last_point(name.drop_last())
    }
}

/// What follows the last point of a name, unless the name only begins with it or
/// has none.
pub open spec fn name_extension(name: Seq<char>) -> Option<Seq<char>> {
    let at = last_point(name);
    if at <= 0 {
        None
    } else {
        Some(name.skip(at + 1))
    }
}

/// The extension of a path's last component, where that is a name.
pub open spec fn path_extension(path: Seq<PartView>) -> Option<Seq<char>> {
    if path.len() == 0 {
        None
    } else {
        match path.last() {
            PartView::Normal(name) => name_extension(name),
            _ => None,
        }
    }
}

/// The path without its last component, which is there and is no root.
pub open spec fn path_parent(path: Seq<PartView>) -> Option<Seq<PartView>> {
    if path.len() == 0 || path.last() is Root {
        None
    } else {
        Some(path.drop_last())
    }
}

/// `base`, then `rest`; just `rest` where that begins at the root.
pub open spec fn path_join(base: Seq<PartView>, rest: Seq<PartView>) -> Seq<PartView> {
    if base.len() == 0 || (rest.len() > 0 && rest[0] is Root) {
        rest
    } else if rest.len() > 0 && rest[0] is Current {
        base + rest.drop_first()
    } else {
        base + rest
    }
}

/// The last component is this name.
pub open spec fn path_ends_with(path: Seq<PartView>, name: Seq<char>) -> bool {
    path.len() > 0 && path.last() == PartView::Normal(name)
}

/// The path with an extension put behind a name that has none.
pub open spec fn with_default_extension(path: Seq<PartView>, extension: Seq<char>) -> Seq<
    PartView,
> {
    if path.len() > 0 && path.last() is Normal && path_extension(path) is None {
        path.drop_last().push(PartView::Normal(path.last()->Normal_0 + seq!['.'] + extension))
    } else {
        path
    }
}

proof fn lemma_last_point(name: Seq<char>)
    ensures
        -1 <= last_point(name) < name.len(),
    decreases name.len(),
{
    if name.len() > 0 {
        lemma_last_point(name.drop_last());
    }
}

/// Behind the last point of a name there is none.
proof fn lemma_last_point_is_last(stem: Seq<char>, extension: Seq<char>)
    requires
        !extension.contains('.'),
    ensures
        last_point(stem + seq!['.'] + extension) == stem.len(),
    decreases extension.len(),
{
    let name = stem + seq!['.'] + extension;
    if extension.len() == 0 {
        assert(name.last() == '.');
    } else {
        let short = extension.drop_last();
        assert(extension.contains(extension.last()));
        assert forall|i: int| 0 <= i < short.len() implies short[i] != '.' by {
            assert(extension.contains(extension[i]));
        }
        assert(name.last() == extension.last());
        assert(name.drop_last() =~= stem + seq!['.'] + short);
        lemma_last_point_is_last(stem, short);
    }
}

proof fn lemma_no_point(name: Seq<char>)
    requires
        forall|i: int| 0 < i < name.len() ==> name[i] != '.',
    ensures
        last_point(name) <= 0,
    decreases name.len(),
{
    if name.len() > 1 {
        let short = name.drop_last();
        assert forall|i: int| 0 < i < short.len() implies short[i] != '.' by {
            assert(short[i] == name[i]);
        }
        lemma_no_point(short);
    } else if name.len() == 1 {
        assert(last_point(name.drop_last()) == -1);
    }
}

/// A name made of a stem, a point and what holds no point has the latter as its extension.
/// A name without a point has none, nor has one that only begins with it.
pub proof fn lemma_extension(dir: Seq<PartView>, stem: Seq<char>, extension: Seq<char>)
    requires
        stem.len() > 0,
        !extension.contains('.'),
    ensures
        path_extension(dir.push(PartView::Normal(stem + seq!['.'] + extension))) == Some(
            extension,
        ),
        (forall|i: int| 0 < i < stem.len() ==> stem[i] != '.') ==> path_extension(
            dir.push(PartView::Normal(stem)),
        ) is None,
{
    let name = stem + seq!['.'] + extension;
    lemma_last_point_is_last(stem, extension);
    assert(name.skip(stem.len() as int + 1) =~= extension);
    if forall|i: int| 0 < i < stem.len() ==> stem[i] != '.' {
        lemma_no_point(stem);
    }
    let path = dir.push(PartView::Normal(name));
    assert(path.last() == PartView::Normal(name));
    assert(dir.push(PartView::Normal(stem)).last() == PartView::Normal(stem));
}

/// The parent of a name in a directory is the directory; joined to a directory, a name lies
/// in it, a path from the root stays as it is, and a mark of the current directory is left
/// out.
pub proof fn lemma_parent_and_join(dir: Seq<PartView>, name: Seq<char>, rest: Seq<PartView>)
    ensures
        path_parent(dir.push(PartView::Normal(name))) == Some(dir),
        path_join(dir, seq![PartView::Normal(name)]) == dir.push(PartView::Normal(name)),
        path_ends_with(dir.push(PartView::Normal(name)), name),
        forall|other: Seq<char>| #[trigger]
            path_ends_with(dir.push(PartView::Normal(name)), other) ==> other == name,
        rest.len() > 0 && rest[0] is Root ==> path_join(dir, rest) == rest,
        rest.len() > 0 && (rest[0] is Normal || rest[0] is Parent) ==> path_join(dir, rest) == dir
            + rest,
        dir.len() > 0 && rest.len() > 0 && rest[0] is Current ==> path_join(dir, rest) == dir
            + rest.skip(1),
        dir.len() == 0 ==> path_join(dir, rest) == rest,
        rest.len() > 0 && !(rest.last() is Root) ==> path_parent(rest) == Some(
            rest.take(rest.len() - 1),
        ),
        path_parent(seq![PartView::Root]) is None,
        path_parent(Seq::<PartView>::empty()) is None,
{
    let path = dir.push(PartView::Normal(name));
    assert(path.drop_last() =~= dir);
    assert(path_join(dir, seq![PartView::Normal(name)]) =~= path);
    if rest.len() > 0 && (rest[0] is Normal || rest[0] is Parent) {
        assert(path_join(dir, rest) =~= dir + rest);
    }
    if rest.len() > 0 {
        assert(rest.drop_first() =~= rest.skip(1));
        assert(rest.drop_last() =~= rest.take(rest.len() - 1));
    }
}

/// A name without an extension gets the default one, and stays in its directory; one with
/// an extension stays as it is.
pub proof fn lemma_default_extension(dir: Seq<PartView>, name: Seq<char>, extension: Seq<char>)
    requires
        name.len() > 0,
        !extension.contains('.'),
    ensures
        ({
            let path = dir.push(PartView::Normal(name));
            let after = with_default_extension(path, extension);
            &&& path_extension(after) is Some
            &&& path_parent(after) == Some(dir)
            &&& path_extension(path) is Some ==> after == path
            &&& path_extension(path) is None ==> path_extension(after) == Some(extension) && after
                == dir.push(PartView::Normal(name + seq!['.'] + extension))
        }),
{
    let path = dir.push(PartView::Normal(name));
    assert(path.last() == PartView::Normal(name));
    assert(path.drop_last() =~= dir);
    lemma_extension(dir, name, extension);
    let other = dir.push(PartView::Normal(name + seq!['.'] + extension));
    assert(other.drop_last() =~= dir);
}

/// Where the last point of a name stands.
fn find_last_point(name: &str) -> (r: Option<usize>)
    ensures
        r matches Some(at) ==> at == last_point(name@),
        r is None ==> last_point(name@) == -1,
{
    let n: usize = name.unicode_len();
    let mut r: Option<usize> = None;
    let mut i: usize = 0;
    while i < n
        invariant
            i <= n == name@.len(),
            r matches Some(at) ==> at == last_point(name@.take(i as int)),
            r is None ==> last_point(name@.take(i as int)) == -1,
        decreases n - i,
    {
        assert(name@.take(i + 1).drop_last() == name@.take(i as int));
        if name.get_char(i) == '.' {
            r = Some(i);
        }
        i = i + 1;
    }
    assert(name@.take(n as int) == name@);
    r
}

impl VfsPath {
    pub open spec fn view(&self) -> Seq<PartView> {
        self.parts@.map_values(|p: Part| p@)
    }

    /// A copy of the first `n` components.
    fn copy_prefix(&self, n: usize) -> (r: VfsPath)
        requires
            n <= self.parts@.len(),
        ensures
            r@ == self@.take(n as int),
    {
        let mut parts: Vec<Part> = Vec::new();
        let mut i: usize = 0;
        while i < n
            invariant
                i <= n <= self.parts@.len(),
                parts@.map_values(|p: Part| p@) == self@.take(i as int),
            decreases n - i,
        {
            let ghost before = parts@.map_values(|p: Part| p@);
            parts.push(self.parts[i].copy());
            assert(parts@.map_values(|p: Part| p@) =~= before.push(self@[i as int]));
            i = i + 1;
            assert(self@.take(i as int) =~= self@.take(i - 1).push(self@[i - 1]));
        }
        VfsPath { parts }
    }

    /// A copy of the path.
    pub fn copy(&self) -> (r: VfsPath)
        ensures
            r@ == self@,
    {
        let r = self.copy_prefix(self.parts.len());
        assert(self@.take(self@.len() as int) == self@);
        r
    }

    /// The path without its last component.
    pub fn parent(&self) -> (r: Option<VfsPath>)
        ensures
            (r is Some) == (path_parent(self@) is Some),
            r matches Some(p) ==> path_parent(self@) == Some(p@),
    {
        let n: usize = self.parts.len();
        if n == 0 {
            return None;
        }
        assert(self@.last() == self.parts@[n - 1]@);
        if let Part::Root = self.parts[n - 1] {
            return None;
        }
        let r = self.copy_prefix(n - 1);
        assert(self@.take(n - 1) =~= self@.drop_last());
        Some(r)
    }

    /// This path, then `rest`.
    pub fn join(&self, rest: &VfsPath) -> (r: VfsPath)
        ensures
            r@ == path_join(self@, rest@),
    {
        if self.parts.len() == 0 {
            return rest.copy();
        }
        let mut from: usize = 0;
        if rest.parts.len() > 0 {
            assert(rest@[0] == rest.parts@[0]@);
            match rest.parts[0] {
                Part::Root => {
                    return rest.copy();
                },
                Part::Current => {
                    from = 1;
                },
                _ => {},
            }
        }
        let ghost added = rest@.skip(from as int);
        assert(from == 1 ==> added =~= rest@.drop_first());
        assert(from == 0 ==> added =~= rest@);
        let mut r = self.copy();
        let mut i: usize = from;
        assert(r@ =~= self@ + added.take(0));
        while i < rest.parts.len()
            invariant
                from <= i <= rest.parts@.len(),
                added == rest@.skip(from as int),
                r@ == self@ + added.take(i - from),
            decreases rest.parts@.len() - i,
        {
            let ghost before = r@;
            r.parts.push(rest.parts[i].copy());
            assert(r@ =~= before.push(rest@[i as int]));
            i = i + 1;
            assert(r@ =~= self@ + added.take(i - from));
        }
        assert(added.take(added.len() as int) =~= added);
        r
    }

    /// The path of a file beside this one.
    pub fn sibling(&self, name: &str) -> (r: Option<VfsPath>)
        ensures
            (r is Some) == (path_parent(self@) is Some),
            r matches Some(p) ==> p@ == path_join(
                path_parent(self@)->0,
                seq![PartView::Normal(name@)],
            ),
    {
        match self.parent() {
            Some(dir) => {
                let mut parts: Vec<Part> = Vec::new();
                parts.push(Part::Normal(name.to_owned()));
                let file = VfsPath { parts };
                assert(file@ =~= seq![PartView::Normal(name@)]);
                Some(dir.join(&file))
            },
            None => None,
        }
    }

    /// The last component is this name.
    pub fn ends_with(&self, name: &str) -> (r: bool)
        ensures
            r == path_ends_with(self@, name@),
    {
        let n: usize = self.parts.len();
        if n == 0 {
            return false;
        }
        assert(self@.last() == self.parts@[n - 1]@);
        match &self.parts[n - 1] {
            Part::Normal(last) => same_text(last.as_str(), name),
            _ => false,
        }
    }

    /// The path has this extension.
    pub fn has_extension(&self, extension: &str) -> (r: bool)
        ensures
            r == (path_extension(self@) == Some(extension@)),
    {
        let n: usize = self.parts.len();
        if n == 0 {
            return false;
        }
        assert(self@.last() == self.parts@[n - 1]@);
        match &self.parts[n - 1] {
            Part::Normal(last) => {
                proof {
                    lemma_last_point(last@);
                }
                match find_last_point(last.as_str()) {
                    Some(at) => {
                        if at == 0 {
                            false
                        } else {
                            let len: usize = last.as_str().unicode_len();
                            let tail = last.as_str().substring_char(at + 1, len);
                            assert(tail@ =~= last@.skip(at + 1));
                            same_text(tail, extension)
                        }
                    },
                    None => false,
                }
            },
            _ => false,
        }
    }

    /// The path has no extension.
    pub fn lacks_extension(&self) -> (r: bool)
        ensures
            r == (path_extension(self@) is None),
    {
        let n: usize = self.parts.len();
        if n == 0 {
            return true;
        }
        assert(self@.last() == self.parts@[n - 1]@);
        match &self.parts[n - 1] {
            Part::Normal(last) => match find_last_point(last.as_str()) {
                Some(at) => at == 0,
                None => true,
            },
            _ => true,
        }
    }

    /// The path with an extension put behind a name that has none.
    pub fn with_default_extension(self, extension: &str) -> (r: VfsPath)
        ensures
            r@ == with_default_extension(self@, extension@),
    {
        if !self.lacks_extension() {
            return self;
        }
        let n: usize = self.parts.len();
        if n == 0 {
            return self;
        }
        assert(self@.last() == self.parts@[n - 1]@);
        let new_name = match &self.parts[n - 1] {
            Part::Normal(last) => {
                proof {
                    reveal_strlit(".");
                }
                let mut name = last.clone();
                name.append(".");
                name.append(extension);
                assert(name@ =~= last@ + seq!['.'] + extension@);
                Some(name)
            },
            _ => None,
        };
        match new_name {
            Some(name) => {
                let mut r = self;
                r.parts.set(n - 1, Part::Normal(name));
                assert(r@ =~= self@.drop_last().push(PartView::Normal(name@)));
                r
            },
            None => self,
        }
    }

    /// This path comes before the other.
    pub fn is_before(&self, other: &VfsPath) -> (r: bool)
        ensures
            r == path_before(self@, other@),
    {
        let n: usize = self.parts.len();
        let m: usize = other.parts.len();
        let mut i: usize = 0;
        assert(self@.skip(0) == self@);
        assert(other@.skip(0) == other@);
        while i < n && i < m
            invariant
                i <= n == self.parts@.len(),
                i <= m == other.parts@.len(),
                path_before(self@, other@) == path_before(
                    self@.skip(i as int),
                    other@.skip(i as int),
                ),
            decreases n - i,
        {
            let ghost a = self@.skip(i as int);
            let ghost b = other@.skip(i as int);
            assert(a[0] == self.parts@[i as int]@);
            assert(b[0] == other.parts@[i as int]@);
            assert(a.drop_first() == self@.skip(i + 1));
            assert(b.drop_first() == other@.skip(i + 1));
            proof {
                lemma_parts_total(a[0], b[0]);
                lemma_parts_total(b[0], a[0]);
            }
            match order_parts(&self.parts[i], &other.parts[i]) {
                NameOrder::Before => {
                    return true;
                },
                NameOrder::After => {
                    return false;
                },
                NameOrder::Same => {},
            }
            i = i + 1;
        }
        n < m
    }

    /// The paths are the same.
    pub fn same_as(&self, other: &VfsPath) -> (r: bool)
        ensures
            r == (self@ == other@),
    {
        let n: usize = self.parts.len();
        if n != other.parts.len() {
            assert(self@.len() != other@.len());
            return false;
        }
        let mut i: usize = 0;
        while i < n
            invariant
                i <= n == self.parts@.len(),
                n == other.parts@.len(),
                self@.take(i as int) == other@.take(i as int),
            decreases n - i,
        {
            if order_parts(&self.parts[i], &other.parts[i]) != NameOrder::Same {
                assert(self@[i as int] != other@[i as int]);
                return false;
            }
            i = i + 1;
            assert(self@.take(i as int) =~= other@.take(i as int)) by {
                assert forall|k: int| 0 <= k < i implies self@[k] == other@[k] by {
                    if k < i - 1 {
                        assert(self@.take(i - 1)[k] == other@.take(i - 1)[k]);
                    }
                }
            }
        }
        assert(self@.take(n as int) == self@);
        assert(other@.take(n as int) == other@);
        true
    }
}

} // verus!
