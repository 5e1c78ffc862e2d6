//! Confinement of paths to a workspace.
//!
//! Every path that a tool receives from the model is resolved here. What
//! resolves outside the workspace is refused: `..`, absolute paths, links that
//! lead out, whether or not anything is there yet, and misleading prefixes
//! (`/ws-other` is not inside `/ws`).
//!
//! An absolute path is the list of its components, each a byte string. The
//! file system says what the workspace's canonical path is, and of an ancestor
//! of the request one of three things: it exists, and has a canonical path; it
//! is a link to something that does not exist, and leads somewhere; or there is
//! no such entry at all.

use vstd::prelude::*;
use vstd::string::*;
use vstd::utf8::*;

use crate::text;

verus! {

/// Why a path is refused.
#[derive(Debug, PartialEq, Eq)]
pub enum PathError {
    InvalidWorkspace(String),
    AbsolutePath,
    Traversal,
    OutsideWorkspace,
    Invalid(String),
}

impl PathError {
    /// The message shown to the user.
    pub open spec fn message(self) -> Seq<char> {
        match self {
            PathError::InvalidWorkspace(detail) =>
                "el workspace no existe o no es accesible: "@ + detail@,
            PathError::AbsolutePath => "se rechazan rutas absolutas dentro del workspace"@,
            PathError::Traversal => "la ruta contiene componentes de traversal (`..`)"@,
            PathError::OutsideWorkspace => "la ruta resuelve fuera del workspace"@,
            PathError::Invalid(detail) => "ruta inválida: "@ + detail@,
        }
    }

    /// The message shown to the user.
    pub fn text(&self) -> (r: String)
        ensures
            r@ == self.message(),
    {
        match self {
            PathError::InvalidWorkspace(detail) => {
                text::join2("el workspace no existe o no es accesible: ", detail.as_str())
            },
            PathError::AbsolutePath => {
                "se rechazan rutas absolutas dentro del workspace".to_owned()
            },
            PathError::Traversal => "la ruta contiene componentes de traversal (`..`)".to_owned(),
            PathError::OutsideWorkspace => "la ruta resuelve fuera del workspace".to_owned(),
            PathError::Invalid(detail) => text::join2("ruta inválida: ", detail.as_str()),
        }
    }
}

/// What the file system says of a workspace.
#[derive(Debug, PartialEq, Eq)]
pub enum WorkspaceProbe {
    /// It has no canonical path; with the reason.
    Missing(String),
    /// It is no directory; with its canonical path as text.
    NotDirectory(String),
    /// It is a directory; with the components of its canonical path.
    Directory(Vec<Vec<u8>>),
}

/// A path below another one, as text: an absolute one stands for itself, and
/// one slash separates the two.
pub open spec fn joined(base: Seq<char>, path: Seq<char>) -> Seq<char> {
    if path.len() > 0 && path[0] == '/' {
        path
    } else if base.len() == 0 || base.last() == '/' {
        base + path
    } else {
        base + seq!['/'] + path
    }
}

/// The path below the other one, as text.
pub fn join(base: &str, path: &str) -> (r: String)
    ensures
        r@ == joined(base@, path@),
{
    let below = text::to_chars(path);
    if below.len() > 0 && below[0] == '/' {
        return path.to_owned();
    }
    let above = text::to_chars(base);
    if above.len() == 0 || above[above.len() - 1] == '/' {
        return text::join2(base, path);
    }
    proof {
        reveal_strlit("/");
        assert("/"@ =~= seq!['/']);
    }
    text::join3(base, "/", path)
}

/// What a list of components holds.
pub open spec fn parts_view(parts: Seq<Vec<u8>>) -> Seq<Seq<u8>> {
    parts.map_values(|p: Vec<u8>| p@)
}

/// Whether a piece between slashes names an entry: it is neither empty nor the
/// current directory.
pub open spec fn names_entry(piece: Seq<char>) -> bool {
    piece.len() > 0 && piece != "."@
}

/// The test for pieces that name an entry.
pub open spec fn entry_test() -> spec_fn(Seq<char>) -> bool {
    |piece: Seq<char>| names_entry(piece)
}

/// The pieces of a relative path that name entries.
pub open spec fn entries(requested: Seq<char>) -> Seq<Seq<char>> {
    text::split(requested, '/').filter(entry_test())
}

/// The same, as components.
pub open spec fn entry_parts(requested: Seq<char>) -> Seq<Seq<u8>> {
    entries(requested).map_values(|piece: Seq<char>| encode_utf8(piece))
}

/// Whether a relative path climbs to a parent directory.
pub open spec fn climbs(requested: Seq<char>) -> bool {
    entries(requested).contains(".."@)
}

/// The error that a request earns by itself, before its components are read.
pub open spec fn request_error(requested: Seq<char>) -> Option<Seq<char>> {
    if requested.len() == 0 {
        Some("ruta vacía"@)
    } else if requested.contains('\0') {
        Some("la ruta contiene NUL"@)
    } else {
        None
    }
}

/// A path on its way to being resolved: the deepest ancestor that may exist,
/// and the components below it, innermost first.
#[derive(Debug, PartialEq, Eq)]
pub struct Resolution {
    pub workspace: Vec<Vec<u8>>,
    pub existing: Vec<Vec<u8>>,
    pub remainder: Vec<Vec<u8>>,
}

impl Resolution {
    /// Whether the ancestor is the workspace or lies in it.
    pub open spec fn well_formed(self) -> bool {
        parts_view(self.workspace@).is_prefix_of(parts_view(self.existing@))
    }

    /// The path to resolve.
    pub open spec fn candidate(self) -> Seq<Seq<u8>> {
        parts_view(self.existing@) + parts_view(self.remainder@).reverse()
    }

    /// Whether the ancestor is the workspace itself.
    pub open spec fn at_workspace(self) -> bool {
        parts_view(self.existing@) == parts_view(self.workspace@)
    }
}

fn copy_parts(parts: &Vec<Vec<u8>>) -> (r: Vec<Vec<u8>>)
    ensures
        parts_view(r@) == parts_view(parts@),
{
    let mut out: Vec<Vec<u8>> = Vec::new();
    let mut i: usize = 0;
    while i < parts.len()
        invariant
            i <= parts.len(),
            parts_view(out@) == parts_view(parts@).take(i as int),
        decreases parts.len() - i,
    {
        let part = copy_part(&parts[i]);
        assert(parts_view(out@.push(part)) == parts_view(out@).push(part@));
        out.push(part);
        i += 1;
    }
    assert(parts_view(parts@).take(i as int) == parts_view(parts@));
    out
}

fn copy_part(part: &Vec<u8>) -> (r: Vec<u8>)
    ensures
        r@ == part@,
{
    let mut out: Vec<u8> = Vec::new();
    let mut i: usize = 0;
    while i < part.len()
        invariant
            i <= part.len(),
            out@ == part@.take(i as int),
        decreases part.len() - i,
    {
        out.push(part[i]);
        i += 1;
    }
    assert(part@.take(i as int) == part@);
    out
}

fn same_part(a: &Vec<u8>, b: &Vec<u8>) -> (r: bool)
    ensures
        r == (a@ == b@),
{
    if a.len() != b.len() {
        return false;
    }
    let mut i: usize = 0;
    while i < a.len()
        invariant
            i <= a.len(),
            a.len() == b.len(),
            a@.take(i as int) == b@.take(i as int),
        decreases a.len() - i,
    {
        if a[i] != b[i] {
            return false;
        }
        assert(a@.take(i + 1) == a@.take(i as int).push(a@[i as int]));
        assert(b@.take(i + 1) == b@.take(i as int).push(b@[i as int]));
        i += 1;
    }
    assert(a@.take(i as int) == a@);
    assert(b@.take(i as int) == b@);
    true
}

/// Whether a path is another one or lies in it: a comparison of components,
/// not of text.
pub fn starts_with(path: &Vec<Vec<u8>>, base: &Vec<Vec<u8>>) -> (r: bool)
    ensures
        r == parts_view(base@).is_prefix_of(parts_view(path@)),
{
    if base.len() > path.len() {
        return false;
    }
    let mut i: usize = 0;
    while i < base.len()
        invariant
            i <= base.len() <= path.len(),
            forall|k: int|
                0 <= k < i ==> #[trigger] parts_view(base@)[k] == parts_view(path@)[k],
        decreases base.len() - i,
    {
        if !same_part(&path[i], &base[i]) {
            assert(parts_view(base@)[i as int] != parts_view(path@)[i as int]);
            return false;
        }
        assert(parts_view(base@)[i as int] == parts_view(path@)[i as int]);
        i += 1;
    }
    assert(parts_view(base@) == parts_view(path@).take(base@.len() as int));
    true
}

/// The error that a request earns before the file system is asked anything.
pub fn check_request(requested: &str) -> (r: Result<(), PathError>)
    ensures
        r is Ok <==> request_error(requested@) is None,
        r matches Err(e) ==> (e matches PathError::Invalid(detail) && Some(detail@)
            == request_error(requested@)),
{
    if requested.is_empty() {
        return Err(PathError::Invalid("ruta vacía".to_owned()));
    }
    if text::has_char(requested, '\0') {
        return Err(PathError::Invalid("la ruta contiene NUL".to_owned()));
    }
    Ok(())
}

/// What a request within a workspace comes to before the file system is asked
/// about its entries.
pub open spec fn resolves(
    workspace: Seq<char>,
    requested: Seq<char>,
    probe: WorkspaceProbe,
    r: Result<Resolution, PathError>,
) -> bool {
    match r {
        Ok(res) => {
            &&& request_error(requested) is None
            &&& requested[0] != '/'
            &&& !climbs(requested)
            &&& probe matches WorkspaceProbe::Directory(ws)
            &&& parts_view(res.workspace@) == parts_view(ws@)
            &&& res.remainder@.len() == 0
            &&& res.well_formed()
            &&& res.candidate() == parts_view(ws@) + entry_parts(requested)
        },
        Err(PathError::Invalid(detail)) => Some(detail@) == request_error(requested),
        Err(PathError::InvalidWorkspace(detail)) => {
            &&& request_error(requested) is None
            &&& match probe {
                WorkspaceProbe::Missing(reason) => detail@ == workspace + ": "@ + reason@,
                WorkspaceProbe::NotDirectory(shown) =>
                    detail@ == shown@ + ": no es un directorio"@,
                WorkspaceProbe::Directory(_) => false,
            }
        },
        Err(PathError::AbsolutePath) => {
            &&& request_error(requested) is None
            &&& probe is Directory
            &&& requested[0] == '/'
        },
        Err(PathError::Traversal) => {
            &&& request_error(requested) is None
            &&& probe is Directory
            &&& requested[0] != '/'
            &&& climbs(requested)
        },
        Err(PathError::OutsideWorkspace) => false,
    }
}

/// Resolves a relative path within a workspace, up to the questions that only
/// the file system can answer. `workspace` is the workspace as the caller
/// wrote it, and `probe` what the file system says of it.
pub fn resolve_within(workspace: &str, requested: &str, probe: WorkspaceProbe) -> (r: Result<
    Resolution,
    PathError,
>)
    ensures
        resolves(workspace@, requested@, probe, r),
{
    match check_request(requested) {
        Ok(()) => {},
        Err(e) => return Err(e),
    }
    let ws = match probe {
        WorkspaceProbe::Missing(reason) => {
            return Err(
                PathError::InvalidWorkspace(text::join3(workspace, ": ", reason.as_str())),
            );
        },
        WorkspaceProbe::NotDirectory(shown) => {
            return Err(
                PathError::InvalidWorkspace(text::join2(shown.as_str(), ": no es un directorio")),
            );
        },
        WorkspaceProbe::Directory(ws) => ws,
    };
    if text::begins_with(requested, "/") {
        proof {
            reveal_strlit("/");
            assert(requested@[0] == requested@.take(1)[0]);
        }
        return Err(PathError::AbsolutePath);
    }
    proof {
        reveal_strlit("/");
        if requested@[0] == '/' {
            assert("/"@ == requested@.take(1));
        }
    }
    let pieces = text::split_on(requested, '/');
    let mut existing = copy_parts(&ws);
    let ghost base = parts_view(ws@);
    let ghost all = text::split(requested@, '/');
    let ghost keep = entry_test();
    let mut i: usize = 0;
    proof {
        reveal(Seq::filter);
        assert(all.take(0).filter(keep) == Seq::<Seq<char>>::empty());
        assert(parts_view(existing@) == base + as_parts(all.take(0).filter(keep)));
    }
    while i < pieces.len()
        invariant
            i <= pieces.len(),
            text::views(pieces@) == all,
            all == text::split(requested@, '/'),
            keep == entry_test(),
            !all.take(i as int).filter(keep).contains(".."@),
            parts_view(existing@) == base + as_parts(all.take(i as int).filter(keep)),
            request_error(requested@) is None,
            requested@[0] != '/',
            probe is Directory,
        decreases pieces.len() - i,
    {
        let ghost seen = all.take(i as int).filter(keep);
        let piece = &pieces[i];
        proof {
            assert(text::views(pieces@)[i as int] == piece@);
            assert(all.take(i + 1).drop_last() == all.take(i as int));
            assert(all.take(i + 1).last() == piece@);
            reveal(Seq::filter);
        }
        if piece.as_str().is_empty() || text::same(piece.as_str(), ".") {
            assert(all.take(i + 1).filter(keep) == seen);
        } else if text::same(piece.as_str(), "..") {
            proof {
                assert(all.take(i + 1).filter(keep) == seen.push(piece@));
                assert(seen.push(piece@).last() == ".."@);
                lemma_prefix_filter(all, keep, i + 1, piece@);
            }
            return Err(PathError::Traversal);
        } else {
            proof {
                assert(all.take(i + 1).filter(keep) == seen.push(piece@));
                lemma_push_not_contains(seen, piece@, ".."@);
                assert(as_parts(seen.push(piece@)) == as_parts(seen).push(encode_utf8(piece@)));
            }
            let part = piece.as_str().as_bytes_vec();
            assert(parts_view(existing@.push(part)) == parts_view(existing@).push(part@));
            existing.push(part);
            assert(base + as_parts(seen).push(part@) == (base + as_parts(seen)).push(part@));
        }
        i += 1;
    }
    proof {
        assert(all.take(i as int) == all);
        assert(as_parts(entries(requested@)) == entry_parts(requested@));
        let whole = base + entry_parts(requested@);
        assert(whole.take(base.len() as int) == base);
        assert(parts_view(Seq::<Vec<u8>>::empty()).reverse() == Seq::<Seq<u8>>::empty());
        assert(whole + Seq::<Seq<u8>>::empty() == whole);
    }
    Ok(Resolution { workspace: ws, existing, remainder: Vec::new() })
}

/// The components of a list of pieces.
pub open spec fn as_parts(pieces: Seq<Seq<char>>) -> Seq<Seq<u8>> {
    pieces.map_values(|piece: Seq<char>| encode_utf8(piece))
}

/// What a filtered prefix holds, the filtered whole holds.
proof fn lemma_prefix_filter(
    s: Seq<Seq<char>>,
    keep: spec_fn(Seq<char>) -> bool,
    i: int,
    x: Seq<char>,
)
    requires
        0 <= i <= s.len(),
        s.take(i).filter(keep).contains(x),
    ensures
        s.filter(keep).contains(x),
    decreases s.len() - i,
{
    reveal(Seq::filter);
    if i == s.len() {
        assert(s.take(i) == s);
    } else {
        let seen = s.take(i).filter(keep);
        assert(s.take(i + 1).drop_last() == s.take(i));
        let k = choose|k: int| 0 <= k < seen.len() && seen[k] == x;
        assert(s.take(i + 1).filter(keep)[k] == x);
        lemma_prefix_filter(s, keep, i + 1, x);
    }
}

proof fn lemma_push_not_contains(s: Seq<Seq<char>>, x: Seq<char>, y: Seq<char>)
    requires
        !s.contains(y),
        x != y,
    ensures
        !s.push(x).contains(y),
{
    if s.push(x).contains(y) {
        let k = choose|k: int| 0 <= k < s.push(x).len() && s.push(x)[k] == y;
        if k < s.len() {
            assert(s[k] == y);
        }
    }
}

/// What a path comes to once the canonical path of its ancestor is known.
pub open spec fn finishes(
    res: Resolution,
    canonical: Result<Vec<Vec<u8>>, String>,
    shown: Seq<char>,
    r: Result<Vec<Vec<u8>>, PathError>,
) -> bool {
    match r {
        Ok(path) => {
            &&& canonical matches Ok(canon)
            &&& parts_view(res.workspace@).is_prefix_of(parts_view(canon@))
            &&& parts_view(path@) == parts_view(canon@) + parts_view(
                res.remainder@,
            ).reverse()
            &&& parts_view(res.workspace@).is_prefix_of(parts_view(path@))
        },
        Err(PathError::OutsideWorkspace) => canonical matches Ok(canon)
            && !parts_view(res.workspace@).is_prefix_of(parts_view(canon@)),
        Err(PathError::Invalid(detail)) => canonical matches Err(reason) && detail@
            == shown + ": "@ + reason@,
        Err(_) => false,
    }
}

/// What a path comes to whose ancestor is a link to something that does not exist.
pub open spec fn dangles(
    res: Resolution,
    target: Option<Vec<Vec<u8>>>,
    r: Result<Vec<Vec<u8>>, PathError>,
) -> bool {
    match r {
        Ok(path) => {
            &&& target matches Some(t)
            &&& parts_view(res.workspace@).is_prefix_of(parts_view(t@))
            &&& parts_view(path@) == parts_view(t@) + parts_view(
                res.remainder@,
            ).reverse()
            &&& parts_view(res.workspace@).is_prefix_of(parts_view(path@))
        },
        Err(e) => {
            &&& e == PathError::OutsideWorkspace
            &&& target matches Some(t) ==> !parts_view(
                res.workspace@,
            ).is_prefix_of(parts_view(t@))
        },
    }
}

impl Resolution {
    /// Whether the file system has to say if the ancestor exists. It has not
    /// once the ancestor is the workspace.
    pub fn needs_probe(&self) -> (r: bool)
        requires
            self.well_formed(),
        ensures
            r == !self.at_workspace(),
    {
        proof {
            let (w, e) = (parts_view(self.workspace@), parts_view(self.existing@));
            if e.len() == w.len() {
                assert(e == e.take(w.len() as int));
            }
        }
        self.existing.len() != self.workspace.len()
    }

    /// There is no entry under the ancestor's name, not even a link: goes one
    /// level up.
    pub fn missing(&mut self)
        requires
            old(self).well_formed(),
            !old(self).at_workspace(),
        ensures
            final(self).well_formed(),
            final(self).workspace == old(self).workspace,
            final(self).candidate() == old(self).candidate(),
            final(self).existing@ == old(self).existing@.drop_last(),
    {
        proof {
            let (w, e) = (parts_view(self.workspace@), parts_view(self.existing@));
            if e.len() == w.len() {
                assert(e == e.take(w.len() as int));
            }
        }
        let ghost before = *self;
        match self.existing.pop() {
            Some(part) => {
                self.remainder.push(part);
            },
            None => {},
        }
        proof {
            let (w, e) = (parts_view(before.workspace@), parts_view(before.existing@));
            let (e2, m2) = (parts_view(self.existing@), parts_view(self.remainder@));
            assert(e2 == e.drop_last());
            assert(e.drop_last().take(w.len() as int) == e.take(w.len() as int));
            assert(m2 == parts_view(before.remainder@).push(e.last()));
            assert(m2.reverse() == seq![e.last()] + parts_view(before.remainder@).reverse());
            assert(e.drop_last() + (seq![e.last()] + parts_view(before.remainder@).reverse()) == e
                + parts_view(before.remainder@).reverse());
        }
    }

    /// The ancestor is a link to something that does not exist. `target` is the
    /// path it leads to, with the links on the way followed, or nothing if that
    /// cannot be told. A link that is not known to lead into the workspace is
    /// refused.
    pub fn dangling(self, target: Option<Vec<Vec<u8>>>) -> (r: Result<Vec<Vec<u8>>, PathError>)
        ensures
            dangles(self, target, r),
    {
        match target {
            Some(t) => self.finish(Ok(t), ""),
            None => Err(PathError::OutsideWorkspace),
        }
    }

    /// The canonical path of the ancestor is known, or why there is none;
    /// `shown` is the ancestor as text. The result lies in the workspace.
    pub fn finish(self, canonical: Result<Vec<Vec<u8>>, String>, shown: &str) -> (r: Result<
        Vec<Vec<u8>>,
        PathError,
    >)
        ensures
            finishes(self, canonical, shown@, r),
    {
        let mut path = match canonical {
            Ok(canon) => canon,
            Err(reason) => {
                return Err(PathError::Invalid(text::join3(shown, ": ", reason.as_str())));
            },
        };
        if !starts_with(&path, &self.workspace) {
            return Err(PathError::OutsideWorkspace);
        }
        let ghost canon = parts_view(path@);
        let ghost below = parts_view(self.remainder@).reverse();
        let mut left: usize = self.remainder.len();
        assert(below.take(0) == Seq::<Seq<u8>>::empty());
        assert(parts_view(path@) == canon + below.take(0));
        while left > 0
            invariant
                left <= self.remainder.len(),
                below == parts_view(self.remainder@).reverse(),
                parts_view(path@) == canon + below.take(self.remainder@.len() - left),
            decreases left,
        {
            let part = copy_part(&self.remainder[left - 1]);
            let ghost k = self.remainder@.len() - left;
            proof {
                assert(below[k] == part@);
                assert(below.take(k + 1) == below.take(k).push(part@));
                assert(parts_view(path@.push(part)) == parts_view(path@).push(part@));
                assert((canon + below.take(k)).push(part@) == canon + below.take(k + 1));
            }
            path.push(part);
            left -= 1;
        }
        proof {
            assert(below.take(self.remainder@.len() as int) == below);
            let w = parts_view(self.workspace@);
            assert((canon + below).take(w.len() as int) == canon.take(w.len() as int));
        }
        Ok(path)
    }
}

/// Whether a component is an entry of a request that does not climb.
pub open spec fn is_entry_of(part: Seq<u8>, requested: Seq<char>) -> bool {
    exists|piece: Seq<char>|
        #![trigger encode_utf8(piece)]
        entries(requested).contains(piece) && piece != ".."@ && names_entry(piece) && part
            == encode_utf8(piece)
}

/// Law: a path that resolves lies in the workspace. It begins with the place
/// that an ancestor of the request leads to, which is in the workspace, and goes
/// on with entries of the request, each of which was said to be absent.
pub proof fn law_resolved_path_stays_inside(
    start: Resolution,
    last: Resolution,
    requested: Seq<char>,
    canon: Seq<Seq<u8>>,
    path: Seq<Seq<u8>>,
)
    requires
        start.candidate() == parts_view(start.workspace@) + entry_parts(requested),
        !climbs(requested),
        last.well_formed(),
        last.workspace == start.workspace,
        last.candidate() == start.candidate(),
        parts_view(last.workspace@).is_prefix_of(canon),
        path == canon + parts_view(last.remainder@).reverse(),
    ensures
        parts_view(start.workspace@).is_prefix_of(path),
        forall|i: int|
            canon.len() <= i < path.len() ==> is_entry_of(#[trigger] path[i], requested),
{
    let ws = parts_view(start.workspace@);
    let below = parts_view(last.remainder@).reverse();
    let e = parts_view(last.existing@);
    assert(path.take(ws.len() as int) == canon.take(ws.len() as int));
    assert forall|i: int| canon.len() <= i < path.len() implies is_entry_of(
        #[trigger] path[i],
        requested,
    ) by {
        let k = i - canon.len();
        assert(path[i] == below[k]);
        let j = e.len() + k - ws.len();
        assert(ws.len() <= e.len());
        assert(last.candidate().len() == e.len() + below.len());
        assert(start.candidate().len() == ws.len() + entry_parts(requested).len());
        assert(last.candidate()[e.len() + k] == below[k]);
        assert(start.candidate()[ws.len() + j] == entry_parts(requested)[j]);
        let piece = entries(requested)[j];
        assert(entry_parts(requested)[j] == encode_utf8(piece));
        assert(entries(requested).contains(piece));
        text::split(requested, '/').lemma_filter_pred(entry_test(), j);
        assert(names_entry(piece));
    }
}

/// The test for pieces other than the current directory.
pub open spec fn dotless() -> spec_fn(Seq<char>) -> bool {
    |piece: Seq<char>| piece != "."@
}

/// The pieces of a path without those that name the current directory.
pub open spec fn undotted(requested: Seq<char>) -> Seq<Seq<char>> {
    text::split(requested, '/').filter(dotless())
}

/// Whether two requests come to the same.
pub open spec fn same_outcome(
    a: Result<Resolution, PathError>,
    b: Result<Resolution, PathError>,
) -> bool {
    match (a, b) {
        (Ok(x), Ok(y)) => {
            &&& parts_view(x.workspace@) == parts_view(y.workspace@)
            &&& parts_view(x.existing@) == parts_view(y.existing@)
            &&& parts_view(x.remainder@) == parts_view(y.remainder@)
        },
        (Err(PathError::InvalidWorkspace(x)), Err(PathError::InvalidWorkspace(y))) => x@ == y@,
        (Err(PathError::Invalid(x)), Err(PathError::Invalid(y))) => x@ == y@,
        (Err(x), Err(y)) => x == y,
        _ => false,
    }
}

proof fn lemma_entries_of_undotted(pieces: Seq<Seq<char>>)
    ensures
        pieces.filter(dotless()).filter(entry_test()) == pieces.filter(entry_test()),
    decreases pieces.len(),
{
    reveal(Seq::filter);
    if pieces.len() > 0 {
        lemma_entries_of_undotted(pieces.drop_last());
        let rest = pieces.drop_last().filter(dotless());
        assert(rest.push(pieces.last()).drop_last() == rest);
    }
}

proof fn lemma_nul_of_undotted(requested: Seq<char>)
    ensures
        requested.contains('\0') <==> exists|k: int|
            0 <= k < undotted(requested).len() && (#[trigger] undotted(requested)[k]).contains(
                '\0',
            ),
{
    let all = text::split(requested, '/');
    let kept = undotted(requested);
    text::lemma_split_holds(requested, '/', '\0');
    if requested.contains('\0') {
        let k = choose|k: int| 0 <= k < all.len() && (#[trigger] all[k]).contains('\0');
        reveal_strlit(".");
        assert(!"."@.contains('\0'));
        assert(dotless()(all[k]));
        all.lemma_filter_contains(dotless(), k);
        let j = choose|j: int| 0 <= j < kept.len() && kept[j] == all[k];
        assert(kept[j].contains('\0'));
    }
    if exists|k: int| 0 <= k < kept.len() && (#[trigger] kept[k]).contains('\0') {
        let k = choose|k: int| 0 <= k < kept.len() && (#[trigger] kept[k]).contains('\0');
        assert(kept.contains(kept[k]));
        all.lemma_filter_contains_rev(dotless(), kept[k]);
        let j = choose|j: int| 0 <= j < all.len() && all[j] == kept[k];
        assert(all[j].contains('\0'));
    }
}

/// Law: `.` changes nothing: two relative requests that differ only in such
/// components come to the same.
pub proof fn law_current_directory_is_harmless(
    workspace: Seq<char>,
    a: Seq<char>,
    b: Seq<char>,
    probe: WorkspaceProbe,
    first: Result<Resolution, PathError>,
    second: Result<Resolution, PathError>,
)
    requires
        a.len() > 0,
        b.len() > 0,
        a[0] != '/',
        b[0] != '/',
        undotted(a) == undotted(b),
        resolves(workspace, a, probe, first),
        resolves(workspace, b, probe, second),
    ensures
        same_outcome(first, second),
{
    lemma_entries_of_undotted(text::split(a, '/'));
    lemma_entries_of_undotted(text::split(b, '/'));
    lemma_nul_of_undotted(a);
    lemma_nul_of_undotted(b);
    assert(entries(a) == entries(b));
    assert(request_error(a) == request_error(b));
    match (first, second) {
        (Ok(x), Ok(y)) => {
            assert(parts_view(x.remainder@) == Seq::<Seq<u8>>::empty());
            assert(parts_view(y.remainder@) == Seq::<Seq<u8>>::empty());
            assert(parts_view(x.remainder@).reverse() == Seq::<Seq<u8>>::empty());
            assert(parts_view(x.existing@) + Seq::<Seq<u8>>::empty() == parts_view(x.existing@));
            assert(parts_view(y.existing@) + Seq::<Seq<u8>>::empty() == parts_view(y.existing@));
        },
        _ => {},
    }
}

/// Law: a request is resolved exactly when it is not empty, holds no NUL, is
/// relative, has no piece `..`, and the workspace is a directory. It then names
/// the workspace and, below it, the pieces of the request that are neither
/// empty nor `.`, in order.
pub proof fn law_request_is_resolved_iff(
    workspace: Seq<char>,
    requested: Seq<char>,
    probe: WorkspaceProbe,
    r: Result<Resolution, PathError>,
)
    requires
        resolves(workspace, requested, probe, r),
    ensures
        ({
            let pieces = text::split(requested, '/');
            let sound = requested.len() > 0 && !requested.contains('\0');
            let climbing = exists|k: int| 0 <= k < pieces.len() && #[trigger] pieces[k] == ".."@;
            &&& r is Ok <==> sound && requested[0] != '/' && !climbing && probe is Directory
            &&& r matches Err(e) ==> {
                &&& e is Invalid <==> !sound
                &&& e is InvalidWorkspace <==> sound && !(probe is Directory)
                &&& e is AbsolutePath <==> sound && probe is Directory && requested[0] == '/'
                &&& e is Traversal <==> sound && probe is Directory && requested[0] != '/'
                    && climbing
            }
            &&& r matches Ok(res) ==> {
                &&& parts_view(probe->Directory_0@) == parts_view(res.workspace@)
                &&& parts_view(res.existing@).len() == res.workspace@.len() + pieces.filter(
                    |p: Seq<char>| p.len() > 0 && p != "."@,
                ).len()
                &&& res.remainder@.len() == 0
                &&& parts_view(res.workspace@).is_prefix_of(parts_view(res.existing@))
                &&& forall|i: int|
                    #![trigger parts_view(res.existing@)[i]]
                    res.workspace@.len() <= i < parts_view(res.existing@).len() ==> parts_view(
                        res.existing@,
                    )[i] == encode_utf8(
                        pieces.filter(|p: Seq<char>| p.len() > 0 && p != "."@)[i
                            - res.workspace@.len()],
                    )
            }
        }),
{
    let pieces = text::split(requested, '/');
    let keep = entry_test();
    let plain = |p: Seq<char>| p.len() > 0 && p != "."@;
    assert(keep =~= plain);
    reveal_strlit("..");
    reveal_strlit(".");
    assert(".."@.len() == 2 && "."@.len() == 1);
    if climbs(requested) {
        pieces.lemma_filter_contains_rev(keep, ".."@);
    }
    if exists|k: int| 0 <= k < pieces.len() && #[trigger] pieces[k] == ".."@ {
        let k = choose|k: int| 0 <= k < pieces.len() && #[trigger] pieces[k] == ".."@;
        assert(keep(pieces[k]));
        pieces.lemma_filter_contains(keep, k);
    }
    match r {
        Ok(res) => {
            assert(parts_view(res.remainder@).reverse() == Seq::<Seq<u8>>::empty());
            assert(res.candidate() == parts_view(res.existing@));
            let ws = parts_view(res.workspace@);
            assert forall|i: int|
                #![trigger parts_view(res.existing@)[i]]
                res.workspace@.len() <= i < parts_view(res.existing@).len() implies parts_view(
                res.existing@,
            )[i] == encode_utf8(pieces.filter(plain)[i - res.workspace@.len()]) by {
                assert(res.candidate()[i] == entry_parts(requested)[i - ws.len()]);
            }
        },
        Err(_) => {},
    }
}

/// Law: a path below another one is that one, a slash where it does not end
/// with one, and the path; an absolute path stands for itself.
pub proof fn law_joined(base: Seq<char>, path: Seq<char>)
    ensures
        path.len() > 0 && path[0] == '/' ==> joined(base, path) == path,
        !(path.len() > 0 && path[0] == '/') ==> base.is_prefix_of(joined(base, path))
            && path.is_suffix_of(joined(base, path)) && joined(base, path).len() == base.len()
            + path.len() + (if base.len() > 0 && base.last() != '/' {
            1int
        } else {
            0
        }),
        !(path.len() > 0 && path[0] == '/') && base.len() > 0 && base.last() != '/' ==> joined(
            base,
            path,
        )[base.len() as int] == '/',
{
    if !(path.len() > 0 && path[0] == '/') {
        assert(base.is_prefix_of(joined(base, path)));
        assert(path.is_suffix_of(joined(base, path)));
    }
}

/// Law: whatever the file system says, a path that comes out lies in the
/// workspace: where the ancestor leads, then what lay below it, in order. An
/// ancestor that leads elsewhere is refused, and so is a link of which nobody
/// knows where it leads.
pub proof fn law_nothing_leads_out(
    res: Resolution,
    canonical: Result<Vec<Vec<u8>>, String>,
    shown: Seq<char>,
    r: Result<Vec<Vec<u8>>, PathError>,
    target: Option<Vec<Vec<u8>>>,
    linked: Result<Vec<Vec<u8>>, PathError>,
)
    requires
        finishes(res, canonical, shown, r),
        dangles(res, target, linked),
    ensures
        r is Ok <==> canonical is Ok && parts_view(res.workspace@).is_prefix_of(
            parts_view(canonical->Ok_0@),
        ),
        r matches Ok(path) ==> {
            &&& parts_view(res.workspace@).is_prefix_of(parts_view(path@))
            &&& parts_view(canonical->Ok_0@).is_prefix_of(parts_view(path@))
            &&& path@.len() == canonical->Ok_0@.len() + res.remainder@.len()
            &&& forall|i: int|
                #![trigger res.remainder@[i]]
                0 <= i < res.remainder@.len() ==> path@[path@.len() - 1 - i]@
                    == res.remainder@[i]@
        },
        r matches Err(e) ==> (e is OutsideWorkspace <==> canonical is Ok),
        linked is Ok <==> target is Some && parts_view(res.workspace@).is_prefix_of(
            parts_view(target->0@),
        ),
        linked matches Ok(path) ==> parts_view(res.workspace@).is_prefix_of(parts_view(path@))
            && parts_view(target->0@).is_prefix_of(parts_view(path@)),
        linked matches Err(e) ==> e == PathError::OutsideWorkspace,
{
    match (r, canonical) {
        (Ok(path), Ok(canon)) => {
            let below = parts_view(res.remainder@).reverse();
            let all = parts_view(path@);
            assert(all.len() == path@.len());
            assert(parts_view(canon@).is_prefix_of(all));
            assert forall|i: int| #![trigger res.remainder@[i]] 0 <= i < res.remainder@.len() implies
                path@[path@.len() - 1 - i]@ == res.remainder@[i]@ by {
                let k = path@.len() - 1 - i;
                assert(all[k] == path@[k]@);
                assert(all[k] == below[k - canon@.len()]);
                assert(below[k - canon@.len()] == parts_view(res.remainder@)[i]);
            }
        },
        _ => {},
    }
    match (linked, target) {
        (Ok(path), Some(t)) => {
            assert(parts_view(t@).is_prefix_of(parts_view(path@)));
        },
        _ => {},
    }
}

} // verus!
