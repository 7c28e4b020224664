//! Storage layout: where each artifact's bytes live under the storage root.
use vstd::prelude::*;

use crate::artifact::ArtifactKind;
use crate::text::{int_decimal, lemma_decimal_has_no_slash, push_char, push_signed_decimal};

verus! {

/// Appends `part` to `base` as a path, adding a `/` unless `base` is empty or
/// already ends with one.
pub open spec fn join_path(base: Seq<char>, part: Seq<char>) -> Seq<char> {
    if base.len() == 0 || base.last() == '/' {
        base + part
    } else {
        base + seq!['/'] + part
    }
}

/// The directory, under the root, that holds artifacts of a kind.
pub open spec fn kind_dir(kind: ArtifactKind) -> Seq<char> {
    match kind {
        ArtifactKind::Report => "dumps"@,
        ArtifactKind::Symbol => "symbols"@,
        ArtifactKind::Image => "images"@,
    }
}

/// The `<guid>_<age>` directory name of a build identity.
pub open spec fn identity_dir(guid: Seq<char>, age: int) -> Seq<char> {
    guid + seq!['_'] + int_decimal(age)
}

/// `<root>/dumps/<version>/<guid>_<age>/<filename>`.
pub open spec fn report_path(
    root: Seq<char>,
    version: Seq<char>,
    guid: Seq<char>,
    age: int,
    filename: Seq<char>,
) -> Seq<char> {
    join_path(
        join_path(
            join_path(join_path(root, kind_dir(ArtifactKind::Report)), version),
            identity_dir(guid, age),
        ),
        filename,
    )
}

/// `<root>/symbols/<version>/<guid>_<age>/<filename>`.
pub open spec fn symbol_path(
    root: Seq<char>,
    version: Seq<char>,
    guid: Seq<char>,
    age: int,
    filename: Seq<char>,
) -> Seq<char> {
    join_path(
        join_path(
            join_path(join_path(root, kind_dir(ArtifactKind::Symbol)), version),
            identity_dir(guid, age),
        ),
        filename,
    )
}

/// `<root>/images/<version>/<guid>/<filename>`: images carry no age.
pub open spec fn image_path(
    root: Seq<char>,
    version: Seq<char>,
    guid: Seq<char>,
    filename: Seq<char>,
) -> Seq<char> {
    join_path(
        join_path(join_path(join_path(root, kind_dir(ArtifactKind::Image)), version), guid),
        filename,
    )
}

/// A `..` component starts at position `i` of a `/`-separated path.
pub open spec fn is_parent_component_at(s: Seq<char>, i: int) -> bool {
    &&& 0 <= i
    &&& i + 1 < s.len()
    &&& s[i] == '.'
    &&& s[i + 1] == '.'
    &&& (i == 0 || s[i - 1] == '/')
    &&& (i + 2 == s.len() || s[i + 2] == '/')
}

/// A lone `.` component stands at position `i` of a `/`-separated path.
pub open spec fn is_current_component_at(s: Seq<char>, i: int) -> bool {
    &&& 0 <= i < s.len()
    &&& s[i] == '.'
    &&& (i == 0 || s[i - 1] == '/')
    &&& (i + 1 == s.len() || s[i + 1] == '/')
}

pub open spec fn has_parent_component(s: Seq<char>) -> bool {
    exists|i: int| is_parent_component_at(s, i)
}

/// The path names something other than the directory it starts from: some
/// character belongs to a component that is neither empty nor `.`.
pub open spec fn has_normal_component(s: Seq<char>) -> bool {
    exists|i: int| 0 <= i < s.len() && s[i] != '/' && !is_current_component_at(s, i)
}

pub open spec fn is_absolute(s: Seq<char>) -> bool {
    s.len() > 0 && s[0] == '/'
}

/// The full path of `rel` under `<root>/<base_dir>`, or `None` where `rel` is
/// absolute, climbs with `..`, or names the base directory itself.
pub open spec fn sanitized_path(root: Seq<char>, base_dir: Seq<char>, rel: Seq<char>) -> Option<
    Seq<char>,
> {
    if is_absolute(rel) || has_parent_component(rel) || !has_normal_component(rel) {
        None
    } else {
        Some(join_path(join_path(root, base_dir), rel))
    }
}

/// A single path component that can be placed under a directory without
/// leaving it: not empty, no `/`, and neither `.` nor `..`.
pub open spec fn is_safe_segment(s: Seq<char>) -> bool {
    &&& s.len() > 0
    &&& forall|i: int| 0 <= i < s.len() ==> s[i] != '/'
    &&& !(s.len() == 1 && s[0] == '.')
    &&& !(s.len() == 2 && s[0] == '.' && s[1] == '.')
}

pub proof fn lemma_safe_segment_has_no_parent(s: Seq<char>)
    requires
        is_safe_segment(s),
    ensures
        !has_parent_component(s),
{
    assert forall|i: int| !is_parent_component_at(s, i) by {
        if is_parent_component_at(s, i) {
            assert(i == 0);
            assert(i + 2 == s.len());
        }
    }
}

/// A safe component, a `/`, then a path without `..`: still no `..`.
pub proof fn lemma_prefix_segment_keeps_no_parent(a: Seq<char>, b: Seq<char>)
    requires
        is_safe_segment(a),
        !has_parent_component(b),
    ensures
        !has_parent_component(a + seq!['/'] + b),
{
    let s = a + seq!['/'] + b;
    let n = a.len() as int;
    assert forall|i: int| !is_parent_component_at(s, i) by {
        if is_parent_component_at(s, i) {
            if i < n {
                assert(s[i] == a[i]);
                assert(i + 1 != n);
                assert(s[i + 1] == a[i + 1]);
                if i > 0 {
                    assert(s[i - 1] == a[i - 1]);
                }
                assert(i == 0);
                if i + 2 < n {
                    assert(s[i + 2] == a[i + 2]);
                }
                assert(a =~= seq!['.', '.']);
            } else if i > n {
                let j = i - n - 1;
                assert(s[i] == b[j]);
                assert(s[i + 1] == b[j + 1]);
                if j > 0 {
                    assert(s[i - 1] == b[j - 1]);
                }
                if j + 2 < b.len() {
                    assert(s[i + 2] == b[j + 2]);
                }
                assert(is_parent_component_at(b, j));
            }
        }
    }
}

/// Joining component by component is joining the components' `/`-separated
/// concatenation, when none of them ends in `/`.
pub proof fn lemma_join_chain(x: Seq<char>, v: Seq<char>, d: Seq<char>, f: Seq<char>)
    requires
        x.len() > 0 && x.last() != '/',
        v.len() > 0 && v.last() != '/',
        d.len() > 0 && d.last() != '/',
    ensures
        join_path(join_path(join_path(x, v), d), f) == join_path(
            x,
            v + seq!['/'] + d + seq!['/'] + f,
        ),
{
    assert((x + seq!['/'] + v).last() == v.last());
    assert((x + seq!['/'] + v + seq!['/'] + d).last() == d.last());
    assert(join_path(join_path(join_path(x, v), d), f) =~= join_path(
        x,
        v + seq!['/'] + d + seq!['/'] + f,
    ));
}

/// The kind directories are plain names.
pub proof fn lemma_kind_dir_is_plain(kind: ArtifactKind)
    ensures
        kind_dir(kind).len() > 0,
        kind_dir(kind).last() != '/',
{
    reveal_strlit("dumps");
    reveal_strlit("symbols");
    reveal_strlit("images");
}

/// `<guid>_<age>` is a safe component when the guid is.
pub proof fn lemma_identity_dir_is_safe(guid: Seq<char>, age: int)
    requires
        is_safe_segment(guid),
    ensures
        is_safe_segment(identity_dir(guid, age)),
{
    lemma_decimal_has_no_slash(age);
    let s = identity_dir(guid, age);
    assert forall|i: int| 0 <= i < s.len() implies s[i] != '/' by {
        if i < guid.len() {
            assert(s[i] == guid[i]);
        } else if i > guid.len() {
            assert(s[i] == int_decimal(age)[i - guid.len() - 1]);
        }
    }
}

/// A path built from safe components under a kind's directory is the
/// sanitized path of those components: it stays strictly below that
/// directory, and so below the root.
pub proof fn lemma_layout_path_is_sanitized(
    root: Seq<char>,
    kind: ArtifactKind,
    v: Seq<char>,
    d: Seq<char>,
    f: Seq<char>,
)
    requires
        is_safe_segment(v),
        is_safe_segment(d),
        is_safe_segment(f),
    ensures
        sanitized_path(root, kind_dir(kind), v + seq!['/'] + d + seq!['/'] + f) == Some(
            join_path(join_path(join_path(join_path(root, kind_dir(kind)), v), d), f),
        ),
{
    let x = join_path(root, kind_dir(kind));
    lemma_kind_dir_is_plain(kind);
    assert(x.last() == kind_dir(kind).last());
    assert(v.last() == v[v.len() - 1]);
    assert(d.last() == d[d.len() - 1]);
    lemma_join_chain(x, v, d, f);
    let tail = d + seq!['/'] + f;
    lemma_safe_segment_has_no_parent(f);
    lemma_prefix_segment_keeps_no_parent(d, f);
    lemma_prefix_segment_keeps_no_parent(v, tail);
    let rel = v + seq!['/'] + d + seq!['/'] + f;
    assert(rel =~= v + seq!['/'] + tail);
    assert(rel[0] == v[0]);
    if v.len() > 1 {
        assert(rel[1] == v[1]);
    } else {
        assert(rel[1] == '/');
    }
    assert(!is_current_component_at(rel, 0));
    assert(has_normal_component(rel));
}

/// What a `FileStorage` is: its root and its two size ceilings.
pub struct StorageView {
    pub root: Seq<char>,
    pub max_minidump_size: u64,
    pub max_pdb_size: u64,
}

/// The on-disk layout of the artifact store.
pub struct FileStorage {
    base_path: String,
    max_minidump_size: u64,
    max_pdb_size: u64,
}

impl View for FileStorage {
    type V = StorageView;

    closed spec fn view(&self) -> StorageView {
        StorageView {
            root: self.base_path@,
            max_minidump_size: self.max_minidump_size,
            max_pdb_size: self.max_pdb_size,
        }
    }
}

/// The byte ceiling that applies to uploads of a kind: crash dumps have
/// their own, symbol files and images share the other.
pub open spec fn size_limit_of(s: StorageView, kind: ArtifactKind) -> u64 {
    match kind {
        ArtifactKind::Report => s.max_minidump_size,
        _ => s.max_pdb_size,
    }
}

fn ends_with_slash(s: &str) -> (r: bool)
    ensures
        r == (s@.len() > 0 && s@.last() == '/'),
{
    let n = s.unicode_len();
    if n == 0 {
        false
    } else {
        s.get_char(n - 1) == '/'
    }
}

/// `base` joined with `part` as a path.
pub fn join(base: &str, part: &str) -> (r: String)
    ensures
        r@ == join_path(base@, part@),
{
    let mut r = base.to_owned();
    if !(base.unicode_len() == 0 || ends_with_slash(base)) {
        push_char(&mut r, '/');
    }
    r.append(part);
    r
}

fn kind_dir_name(kind: ArtifactKind) -> (r: &'static str)
    ensures
        r@ == kind_dir(kind),
{
    match kind {
        ArtifactKind::Report => "dumps",
        ArtifactKind::Symbol => "symbols",
        ArtifactKind::Image => "images",
    }
}

/// The `<guid>_<age>` directory name.
pub fn identity_dir_name(guid: &str, age: i32) -> (r: String)
    ensures
        r@ == identity_dir(guid@, age as int),
{
    let mut r = guid.to_owned();
    push_char(&mut r, '_');
    push_signed_decimal(&mut r, age as i64);
    r
}

/// Whether `s` is a safe single path component.
pub fn is_safe_segment_str(s: &str) -> (r: bool)
    ensures
        r == is_safe_segment(s@),
{
    let n = s.unicode_len();
    if n == 0 {
        return false;
    }
    let mut i: usize = 0;
    while i < n
        invariant
            n == s@.len(),
            i <= n,
            forall|j: int| 0 <= j < i ==> s@[j] != '/',
        decreases n - i,
    {
        if s.get_char(i) == '/' {
            return false;
        }
        i = i + 1;
    }
    if s.get_char(0) == '.' {
        if n == 1 {
            return false;
        }
        if n == 2 && s.get_char(1) == '.' {
            return false;
        }
    }
    true
}

impl FileStorage {
    pub fn new(base_path: &str, max_minidump_size: u64, max_pdb_size: u64) -> (r: FileStorage)
        ensures
            r@.root == base_path@,
            r@.max_minidump_size == max_minidump_size,
            r@.max_pdb_size == max_pdb_size,
    {
        FileStorage { base_path: base_path.to_owned(), max_minidump_size, max_pdb_size }
    }

    /// The directory that holds artifacts of `kind`.
    pub fn kind_directory(&self, kind: ArtifactKind) -> (r: String)
        ensures
            r@ == join_path(self@.root, kind_dir(kind)),
    {
        join(self.base_path.as_str(), kind_dir_name(kind))
    }

    /// Where a crash dump of this build identity is stored. Each part must
    /// be a safe single component, so the path stays under the root.
    pub fn get_minidump_path(
        &self,
        exe_version: &str,
        exe_guid: &str,
        exe_age: i32,
        filename: &str,
    ) -> (r: String)
        requires
            is_safe_segment(exe_version@),
            is_safe_segment(exe_guid@),
            is_safe_segment(filename@),
        ensures
            r@ == report_path(self@.root, exe_version@, exe_guid@, exe_age as int, filename@),
            sanitized_path(
                self@.root,
                kind_dir(ArtifactKind::Report),
                exe_version@ + seq!['/'] + identity_dir(exe_guid@, exe_age as int) + seq!['/'] + filename@,
            ) == Some(r@),
    {
        proof {
            lemma_identity_dir_is_safe(exe_guid@, exe_age as int);
            lemma_layout_path_is_sanitized(
                self@.root,
                ArtifactKind::Report,
                exe_version@,
                identity_dir(exe_guid@, exe_age as int),
                filename@,
            );
        }
        let dir = self.kind_directory(ArtifactKind::Report);
        let p = join(dir.as_str(), exe_version);
        let id = identity_dir_name(exe_guid, exe_age);
        let p = join(p.as_str(), id.as_str());
        join(p.as_str(), filename)
    }

    /// Where a symbol file of this build identity is stored. Each part must
    /// be a safe single component, so the path stays under the root.
    pub fn get_pdb_path(
        &self,
        exe_version: &str,
        exe_guid: &str,
        exe_age: i32,
        filename: &str,
    ) -> (r: String)
        requires
            is_safe_segment(exe_version@),
            is_safe_segment(exe_guid@),
            is_safe_segment(filename@),
        ensures
            r@ == symbol_path(self@.root, exe_version@, exe_guid@, exe_age as int, filename@),
            sanitized_path(
                self@.root,
                kind_dir(ArtifactKind::Symbol),
                exe_version@ + seq!['/'] + identity_dir(exe_guid@, exe_age as int) + seq!['/'] + filename@,
            ) == Some(r@),
    {
        proof {
            lemma_identity_dir_is_safe(exe_guid@, exe_age as int);
            lemma_layout_path_is_sanitized(
                self@.root,
                ArtifactKind::Symbol,
                exe_version@,
                identity_dir(exe_guid@, exe_age as int),
                filename@,
            );
        }
        let dir = self.kind_directory(ArtifactKind::Symbol);
        let p = join(dir.as_str(), exe_version);
        let id = identity_dir_name(exe_guid, exe_age);
        let p = join(p.as_str(), id.as_str());
        join(p.as_str(), filename)
    }

    /// Where an executable image of this version and guid is stored. Each
    /// part must be a safe single component, so the path stays under the root.
    pub fn get_exe_path(&self, exe_version: &str, exe_guid: &str, filename: &str) -> (r: String)
        requires
            is_safe_segment(exe_version@),
            is_safe_segment(exe_guid@),
            is_safe_segment(filename@),
        ensures
            r@ == image_path(self@.root, exe_version@, exe_guid@, filename@),
            sanitized_path(
                self@.root,
                kind_dir(ArtifactKind::Image),
                exe_version@ + seq!['/'] + exe_guid@ + seq!['/'] + filename@,
            ) == Some(r@),
    {
        proof {
            lemma_layout_path_is_sanitized(
                self@.root,
                ArtifactKind::Image,
                exe_version@,
                exe_guid@,
                filename@,
            );
        }
        let dir = self.kind_directory(ArtifactKind::Image);
        let p = join(dir.as_str(), exe_version);
        let p = join(p.as_str(), exe_guid);
        join(p.as_str(), filename)
    }

    /// The full path of `path` under `<root>/<base_dir>`, refused where
    /// `path` could leave that directory or names it itself.
    pub fn get_sanitized_path(&self, base_dir: &str, path: &str) -> (r: Option<String>)
        ensures
            r matches Some(p) ==> sanitized_path(self@.root, base_dir@, path@) == Some(p@),
            r is None ==> sanitized_path(self@.root, base_dir@, path@) is None,
    {
        let n = path.unicode_len();
        if n > 0 && path.get_char(0) == '/' {
            return None;
        }
        let ghost s = path@;
        let mut prev_slash = true;
        let mut normal = false;
        let mut i: usize = 0;
        while i < n
            invariant
                n == s.len(),
                s == path@,
                i <= n,
                prev_slash == (i == 0 || s[i - 1] == '/'),
                forall|j: int| 0 <= j < i ==> !is_parent_component_at(s, j),
                normal == exists|j: int|
                    0 <= j < i && s[j] != '/' && !is_current_component_at(s, j),
            decreases n - i,
        {
            let c = path.get_char(i);
            let next_is_end_or_slash = i + 1 == n || path.get_char(i + 1) == '/';
            if c == '.' && prev_slash && i + 1 < n && path.get_char(i + 1) == '.' && (i + 2 == n
                || path.get_char(i + 2) == '/') {
                assert(is_parent_component_at(s, i as int));
                return None;
            }
            if c != '/' && !(c == '.' && prev_slash && next_is_end_or_slash) {
                assert(s[i as int] != '/' && !is_current_component_at(s, i as int));
                normal = true;
            }
            prev_slash = c == '/';
            i = i + 1;
        }
        if !normal {
            return None;
        }
        let dir = join(self.base_path.as_str(), base_dir);
        Some(join(dir.as_str(), path))
    }

    /// The byte ceiling for crash dumps.
    pub fn get_max_minidump_size(&self) -> (r: u64)
        ensures
            r == self@.max_minidump_size,
    {
        self.max_minidump_size
    }

    /// The byte ceiling for symbol files, which images share.
    pub fn get_max_pdb_size(&self) -> (r: u64)
        ensures
            r == self@.max_pdb_size,
    {
        self.max_pdb_size
    }

    /// The byte ceiling for uploads of `kind`.
    pub fn size_limit(&self, kind: ArtifactKind) -> (r: u64)
        ensures
            r == size_limit_of(self@, kind),
    {
        match kind {
            ArtifactKind::Report => self.max_minidump_size,
            _ => self.max_pdb_size,
        }
    }
}

} // verus!
