//! Filesystem paths as lists of components, and the operations on them that
//! the synchronization worker needs: prefix tests, relativization against a
//! root, joining, rendering as text, and a model of which directories exist
//! after a materialization call.

use vstd::prelude::*;
use crate::errors::ErrorView;
use crate::errors::FsError;

verus! {

/// The byte that separates components when a path is rendered as text.
pub const SEPARATOR: u8 = 47;

/// A filesystem path, held as the list of its components; each component is
/// the byte string of one path segment. Whether the path is absolute or
/// relative is decided by the code that holds it: a root path and an entry
/// path are absolute, a resolved path is relative to its root.
#[derive(Debug)]
pub struct FsPath {
    pub components: Vec<Vec<u8>>,
}

/// The sequence of byte strings that a component list stands for.
pub open spec fn view_of_components(cs: Seq<Vec<u8>>) -> Seq<Seq<u8>> {
    cs.map_values(|c: Vec<u8>| c@)
}

/// Pushing a component onto the list pushes its bytes onto the view.
pub proof fn lemma_view_of_components_push(cs: Seq<Vec<u8>>, c: Vec<u8>)
    ensures
        view_of_components(cs.push(c)) == view_of_components(cs).push(c@),
{
    let l = view_of_components(cs.push(c));
    let r = view_of_components(cs).push(c@);
    assert forall|i: int| 0 <= i < l.len() implies l[i] == r[i] by {
        if i < cs.len() {
            assert(cs.push(c)[i] == cs[i]);
        } else {
            assert(cs.push(c)[i] == c);
        }
    }
    assert(l =~= r);
}

impl View for FsPath {
    type V = Seq<Seq<u8>>;

    open spec fn view(&self) -> Seq<Seq<u8>> {
        view_of_components(self.components@)
    }
}

/// Byte-for-byte equality of two byte vectors.
pub fn bytes_eq(a: &Vec<u8>, b: &Vec<u8>) -> (r: bool)
    ensures
        r == (a@ == b@),
{
    if a.len() != b.len() {
        return false;
    }
    let mut i: usize = 0;
    while i < a.len()
        invariant
            i <= a.len(),
            a.len() == b.len(),
            forall|j: int| 0 <= j < i ==> a@[j] == b@[j],
        decreases a.len() - i,
    {
        if a[i] != b[i] {
            return false;
        }
        i += 1;
    }
    proof {
        assert(a@ =~= b@);
    }
    true
}

/// A copy of a byte vector.
pub fn clone_bytes(a: &Vec<u8>) -> (r: Vec<u8>)
    ensures
        r@ == a@,
{
    let mut r: Vec<u8> = Vec::new();
    let mut i: usize = 0;
    while i < a.len()
        invariant
            i <= a.len(),
            r@ =~= a@.take(i as int),
        decreases a.len() - i,
    {
        r.push(a[i]);
        i += 1;
    }
    proof {
        assert(a@.take(a.len() as int) =~= a@);
    }
    r
}

impl FsPath {
    /// A copy of this path.
    pub fn clone_path(&self) -> (r: FsPath)
        ensures
            r@ == self@,
    {
        let mut components: Vec<Vec<u8>> = Vec::new();
        let mut i: usize = 0;
        while i < self.components.len()
            invariant
                i <= self.components.len(),
                view_of_components(components@) =~= self@.take(i as int),
            decreases self.components.len() - i,
        {
            let c = clone_bytes(&self.components[i]);
            proof {
                lemma_view_of_components_push(components@, c);
            }
            components.push(c);
            proof {
                assert(view_of_components(components@) =~= self@.take(i + 1 as int));
            }
            i += 1;
        }
        let r = FsPath { components };
        proof {
            assert(self@.take(self.components.len() as int) =~= self@);
        }
        r
    }

    /// Whether `prefix`'s components are an initial segment of this path's.
    pub fn starts_with(&self, prefix: &FsPath) -> (r: bool)
        ensures
            r == prefix@.is_prefix_of(self@),
    {
        if prefix.components.len() > self.components.len() {
            return false;
        }
        let mut i: usize = 0;
        while i < prefix.components.len()
            invariant
                i <= prefix.components.len() <= self.components.len(),
                forall|j: int| 0 <= j < i ==> prefix@[j] == self@[j],
            decreases prefix.components.len() - i,
        {
            if !bytes_eq(&prefix.components[i], &self.components[i]) {
                proof {
                    assert(prefix@[i as int] != self@[i as int]);
                }
                return false;
            }
            i += 1;
        }
        proof {
            assert(prefix@ =~= self@.subrange(0, prefix@.len() as int));
        }
        true
    }

    /// self's components followed by all of `other`'s.
    pub fn join(&self, other: &FsPath) -> (r: FsPath)
        ensures
            r@ == self@ + other@,
    {
        let mut components = self.clone_path().components;
        let mut i: usize = 0;
        while i < other.components.len()
            invariant
                i <= other.components.len(),
                view_of_components(components@) =~= self@ + other@.take(i as int),
            decreases other.components.len() - i,
        {
            let c = clone_bytes(&other.components[i]);
            proof {
                lemma_view_of_components_push(components@, c);
            }
            components.push(c);
            proof {
                assert(view_of_components(components@) =~= self@ + other@.take(i + 1 as int));
            }
            i += 1;
        }
        let r = FsPath { components };
        proof {
            assert(other@.take(other.components.len() as int) =~= other@);
            assert(r@ =~= self@ + other@);
        }
        r
    }

    /// The path without its last component.
    pub fn parent(&self) -> (r: FsPath)
        requires
            self@.len() >= 1,
        ensures
            r@ == self@.drop_last(),
    {
        let mut components: Vec<Vec<u8>> = Vec::new();
        let last: usize = self.components.len() - 1;
        let mut i: usize = 0;
        while i < last
            invariant
                i <= last < self.components.len(),
                view_of_components(components@) =~= self@.take(i as int),
            decreases last - i,
        {
            let c = clone_bytes(&self.components[i]);
            proof {
                lemma_view_of_components_push(components@, c);
            }
            components.push(c);
            proof {
                assert(view_of_components(components@) =~= self@.take(i + 1 as int));
            }
            i += 1;
        }
        let r = FsPath { components };
        proof {
            assert(r@ =~= self@.drop_last());
        }
        r
    }

    /// The path rendered as text: its components joined by the separator
    /// byte.
    pub fn text(&self) -> (r: Vec<u8>)
        ensures
            r@ == joined_text(self@),
    {
        let mut r: Vec<u8> = Vec::new();
        let mut i: usize = 0;
        while i < self.components.len()
            invariant
                i <= self.components.len(),
                r@ =~= joined_text(self@.take(i as int)),
            decreases self.components.len() - i,
        {
            proof {
                lemma_joined_text_step(self@, i as int);
            }
            if i > 0 {
                r.push(SEPARATOR);
            }
            append_bytes(&mut r, &self.components[i]);
            proof {
                assert(self@[i as int] == self.components@[i as int]@);
                assert(r@ =~= joined_text(self@.take(i + 1 as int)));
            }
            i += 1;
        }
        proof {
            assert(self@.take(self.components.len() as int) =~= self@);
        }
        r
    }
}

/// Appends all bytes of `src` to `dst`.
pub fn append_bytes(dst: &mut Vec<u8>, src: &Vec<u8>)
    ensures
        final(dst)@ == old(dst)@ + src@,
{
    let mut i: usize = 0;
    while i < src.len()
        invariant
            i <= src.len(),
            dst@ =~= old(dst)@ + src@.take(i as int),
        decreases src.len() - i,
    {
        dst.push(src[i]);
        proof {
            assert(dst@ =~= old(dst)@ + src@.take(i + 1 as int));
        }
        i += 1;
    }
    proof {
        assert(src@.take(src.len() as int) =~= src@);
        assert(dst@ =~= old(dst)@ + src@);
    }
}

/// Whether `path` lies under `root`: the root's components are an initial
/// segment of the path's.
pub open spec fn is_under(path: Seq<Seq<u8>>, root: Seq<Seq<u8>>) -> bool {
    root.is_prefix_of(path)
}

/// The path relative to `root`: what remains of `path` after the root's
/// components.
pub open spec fn rel_of(path: Seq<Seq<u8>>, root: Seq<Seq<u8>>) -> Seq<Seq<u8>> {
    path.skip(root.len() as int)
}

/// Resolving a path that lies under a root succeeds, and joining the root
/// back onto the result reproduces the original path.
pub proof fn lemma_resolve_round_trip(path: Seq<Seq<u8>>, root: Seq<Seq<u8>>)
    requires
        is_under(path, root),
    ensures
        root + rel_of(path, root) == path,
{
    assert(root + rel_of(path, root) =~= path);
}

/// The path of `path` relative to `root`, or a path error when `path` does
/// not lie under `root`. Touches nothing but its arguments.
pub fn resolve_rel_path(path: &FsPath, root: &FsPath) -> (r: Result<FsPath, FsError>)
    ensures
        r is Ok <==> is_under(path@, root@),
        r matches Ok(rel) ==> rel@ == rel_of(path@, root@) && root@ + rel@ == path@,
        r matches Err(e) ==> e@ == (ErrorView::PathNotUnderRoot { path: path@, root: root@ }),
{
    if !path.starts_with(root) {
        return Err(
            FsError::PathNotUnderRoot { path: path.clone_path(), root: root.clone_path() },
        );
    }
    let mut components: Vec<Vec<u8>> = Vec::new();
    let mut i: usize = root.components.len();
    while i < path.components.len()
        invariant
            root.components.len() <= i <= path.components.len(),
            root@.len() == root.components.len(),
            view_of_components(components@) =~= path@.subrange(root@.len() as int, i as int),
        decreases path.components.len() - i,
    {
        let c = clone_bytes(&path.components[i]);
        proof {
            lemma_view_of_components_push(components@, c);
        }
        components.push(c);
        proof {
            assert(view_of_components(components@) =~= path@.subrange(
                root@.len() as int,
                i + 1 as int,
            ));
        }
        i += 1;
    }
    let rel = FsPath { components };
    proof {
        assert(rel@ =~= rel_of(path@, root@));
        lemma_resolve_round_trip(path@, root@);
    }
    Ok(rel)
}

/// The textual form of a path: its components joined by the separator byte.
pub open spec fn joined_text(s: Seq<Seq<u8>>) -> Seq<u8>
    decreases s.len(),
{
    if s.len() == 0 {
        Seq::empty()
    } else if s.len() == 1 {
        s[0]
    } else {
        joined_text(s.drop_last()) + seq![SEPARATOR] + s.last()
    }
}

/// How `joined_text` grows when one more component of `s` is taken.
pub proof fn lemma_joined_text_step(s: Seq<Seq<u8>>, i: int)
    requires
        0 <= i < s.len(),
    ensures
        i == 0 ==> joined_text(s.take(1)) == s[0],
        i >= 1 ==> joined_text(s.take(i + 1)) == joined_text(s.take(i)) + seq![SEPARATOR] + s[i],
{
    if i == 0 {
        assert(s.take(1).len() == 1);
        assert(s.take(1)[0] == s[0]);
    } else {
        assert(s.take(i + 1).drop_last() =~= s.take(i));
        assert(s.take(i + 1).last() == s[i]);
    }
}

/// The directories that are guaranteed to exist after materializing `dir`
/// under some root: every initial segment of `dir`, the empty one (the root
/// itself) and `dir` included.
pub open spec fn created_by(dir: Seq<Seq<u8>>) -> Set<Seq<Seq<u8>>> {
    Set::new(|p: Seq<Seq<u8>>| p.is_prefix_of(dir))
}

/// The set of existing directories after one materialization call for `dir`.
pub open spec fn with_created(existing: Set<Seq<Seq<u8>>>, dir: Seq<Seq<u8>>) -> Set<
    Seq<Seq<u8>>,
> {
    existing.union(created_by(dir))
}

/// Materializing the same directory twice yields the same directory set as
/// materializing it once.
pub proof fn lemma_materialize_idempotent(existing: Set<Seq<Seq<u8>>>, dir: Seq<Seq<u8>>)
    ensures
        with_created(with_created(existing, dir), dir) == with_created(existing, dir),
{
    assert(with_created(with_created(existing, dir), dir) =~= with_created(existing, dir));
}

/// Every ancestor of a materialized directory, the directory itself
/// included, exists afterwards.
pub proof fn lemma_ancestors_created(existing: Set<Seq<Seq<u8>>>, dir: Seq<Seq<u8>>, i: int)
    requires
        0 <= i <= dir.len(),
    ensures
        with_created(existing, dir).contains(dir.take(i)),
{
    assert(dir.take(i) =~= dir.subrange(0, i));
    assert(dir.take(i).is_prefix_of(dir));
}

} // verus!
