//! Asset paths relative to the assets root, and the file-name parts of them.

use vstd::prelude::*;

verus! {

/// A path relative to the assets root directory, such as `scans/5.png`.
#[derive(Debug, Clone)]
pub struct AssetPath(pub String);

/// The assets root directory on disk.
#[derive(Debug, Clone)]
pub struct AssetsDir(pub String);

impl View for AssetPath {
    type V = Seq<char>;

    open spec fn view(&self) -> Seq<char> {
        self.0@
    }
}

impl View for AssetsDir {
    type V = Seq<char>;

    open spec fn view(&self) -> Seq<char> {
        self.0@
    }
}

/// The characters after the last `/` of `p` (all of `p` when it has none).
pub open spec fn file_name_of(p: Seq<char>) -> Seq<char>
    decreases p.len(),
{
    if p.len() == 0 {
        p
    } else if p.last() == '/' {
        Seq::empty()
    } else {
        file_name_of(p.drop_last()).push(p.last())
    }
}

/// The characters of `f` before its first `.` (all of `f` when it has none).
pub open spec fn stem_of(f: Seq<char>) -> Seq<char>
    decreases f.len(),
{
    if f.len() == 0 {
        f
    } else if f[0] == '.' {
        Seq::empty()
    } else {
        seq![f[0]] + stem_of(f.drop_first())
    }
}

pub open spec fn web_prefix() -> Seq<char> {
    seq!['/', 'a', 's', 's', 'e', 't', 's', '/']
}

/// The name of the file a path points at, without any extension.
pub open spec fn base_name_of(p: Seq<char>) -> Seq<char> {
    stem_of(file_name_of(p))
}

impl AssetPath {
    /// The path on disk, under the assets directory `assets_dir`.
    pub fn as_disk_path(&self, assets_dir: &str) -> (r: String)
        ensures
            r@ == assets_dir@ + seq!['/'] + self@,
    {
        let mut s = String::from_str(assets_dir);
        proof {
            reveal_strlit("/");
        }
        s.append("/");
        s.append(self.0.as_str());
        s
    }

    /// The URL path under which the web server serves the asset.
    pub fn as_web_path(&self) -> (r: String)
        ensures
            r@ == web_prefix() + self@,
    {
        let mut s = String::from_str("/assets/");
        proof {
            reveal_strlit("/assets/");
            assert("/assets/"@ =~= web_prefix());
        }
        s.append(self.0.as_str());
        s
    }

    pub fn as_relative_path(&self) -> (r: String)
        ensures
            r@ == self@,
    {
        self.0.clone()
    }

    pub fn from_relative_path(path: String) -> (r: Self)
        ensures
            r@ == path@,
    {
        AssetPath(path)
    }

    /// The file name of the path up to its first `.`: `scans/5_1.png` gives `5_1`.
    pub fn base_name(&self) -> (r: String)
        ensures
            r@ == base_name_of(self@),
    {
        let p = self.0.as_str();
        let len = p.unicode_len();
        let mut j: usize = len;
        proof {
            assert(p@.subrange(0, len as int) =~= p@);
            assert(p@.subrange(len as int, len as int) =~= Seq::<char>::empty());
            assert(p@ + Seq::<char>::empty() =~= p@);
        }
        while j > 0 && p.get_char(j - 1) != '/'
            invariant
                j <= len == p@.len(),
                file_name_of(p@) == file_name_of(p@.subrange(0, j as int)) + p@.subrange(
                    j as int,
                    len as int,
                ),
            decreases j,
        {
            proof {
                let q = p@.subrange(0, j as int);
                assert(q.drop_last() =~= p@.subrange(0, j - 1));
                assert(p@.subrange(j - 1, len as int) =~= seq![q.last()] + p@.subrange(
                    j as int,
                    len as int,
                ));
                assert(file_name_of(q) == file_name_of(q.drop_last()).push(q.last()));
                assert(file_name_of(q.drop_last()).push(q.last()) + p@.subrange(j as int, len as int)
                    =~= file_name_of(q.drop_last()) + p@.subrange(j - 1, len as int));
            }
            j = j - 1;
        }
        proof {
            let q = p@.subrange(0, j as int);
            if j == 0 {
                assert(q.len() == 0);
            } else {
                assert(q.last() == '/');
            }
            assert(file_name_of(q) =~= Seq::<char>::empty());
            assert(file_name_of(p@) =~= p@.subrange(j as int, len as int));
        }
        let f = p.substring_char(j, len);
        let flen = f.unicode_len();
        let mut i: usize = 0;
        proof {
            assert(f@.subrange(0, flen as int) =~= f@);
            assert(f@.subrange(0, 0) + f@ =~= f@);
        }
        while i < flen && f.get_char(i) != '.'
            invariant
                i <= flen == f@.len(),
                stem_of(f@) == f@.subrange(0, i as int) + stem_of(f@.subrange(i as int, flen as int)),
            decreases flen - i,
        {
            proof {
                let t = f@.subrange(i as int, flen as int);
                assert(t.drop_first() =~= f@.subrange(i + 1, flen as int));
                assert(f@.subrange(0, i + 1) =~= f@.subrange(0, i as int) + seq![t[0]]);
                assert(stem_of(t) == seq![t[0]] + stem_of(t.drop_first()));
            }
            i = i + 1;
        }
        proof {
            let t = f@.subrange(i as int, flen as int);
            if i < flen {
                assert(t[0] == '.');
            }
            assert(stem_of(t) =~= Seq::<char>::empty());
            assert(stem_of(f@) =~= f@.subrange(0, i as int));
        }
        String::from_str(f.substring_char(0, i))
    }
}

impl From<String> for AssetPath {
    fn from(path: String) -> (r: AssetPath) {
        AssetPath(path)
    }
}

impl vstd::std_specs::convert::FromSpecImpl<String> for AssetPath {
    open spec fn obeys_from_spec() -> bool {
        true
    }

    open spec fn from_spec(path: String) -> AssetPath {
        AssetPath(path)
    }
}

impl From<AssetPath> for String {
    fn from(path: AssetPath) -> (r: String) {
        path.0
    }
}

impl vstd::std_specs::convert::FromSpecImpl<AssetPath> for String {
    open spec fn obeys_from_spec() -> bool {
        true
    }

    open spec fn from_spec(path: AssetPath) -> String {
        path.0
    }
}

} // verus!
