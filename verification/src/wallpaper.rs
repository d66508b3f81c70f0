//! A trimmed wallpaper model: just what saving a search result to disk
//! needs, with the destination path derived from the wallpaper's id and
//! its MIME type.

use vstd::prelude::*;

use crate::query::{count_char, find_char};
use crate::strutil::{chars_of, string_from_chars, subvec_chars};

verus! {

/// The three thumbnail variants of a wallpaper.
#[derive(Debug, Clone)]
pub struct Thumb {
    pub large: String,
    pub original: String,
    pub small: String,
}

/// One wallpaper of a search result.
#[derive(Debug, Clone)]
pub struct Wallpaper {
    pub id: String,
    pub url: String,
    pub short_url: String,
    pub views: i32,
    pub favorites: i32,
    pub source: String,
    pub purity: String,
    pub category: String,
    pub dimension_x: i32,
    pub dimension_y: i32,
    pub resolution: String,
    pub ratio: String,
    pub file_size: i32,
    pub file_type: String,
    pub created_at: String,
    pub colors: Vec<String>,
    pub path: String,
    pub thumbs: Thumb,
}

/// A bare list payload of wallpapers.
#[derive(Debug)]
pub struct ApiResponse {
    pub data: Vec<Wallpaper>,
}

/// The second `/`-separated piece of a string: what stands between the
/// first slash and the next one, or the end.
pub open spec fn second_slash_piece(s: Seq<char>) -> Seq<char> {
    let f = find_char(s, '/');
    let rest = s.subrange(f + 1, s.len() as int);
    rest.subrange(0, find_char(rest, '/'))
}

impl Wallpaper {
    /// The file path a wallpaper is saved under: directory, id, and the
    /// extension taken from the MIME type (`image/png` gives `png`).
    /// The MIME type must contain a slash.
    pub fn get_savepath(&self, path: &str) -> (r: String)
        requires
            count_char(self.file_type@, '/') >= 1,
        ensures
            r@ == path@ + "/"@ + self.id@ + "."@ + second_slash_piece(self.file_type@),
    {
        let ft = chars_of(self.file_type.as_str());
        let n = ft.len();
        // The first slash is present by the precondition.
        let mut f: usize = 0;
        while f < n && ft[f] != '/'
            invariant
                n == ft@.len(),
                ft@ == self.file_type@,
                f <= n,
                forall|k: int| 0 <= k < f ==> ft@[k] != '/',
            decreases n - f,
        {
            f = f + 1;
        }
        proof {
            crate::query::lemma_find_char_props(ft@, '/');
            crate::query::lemma_count_zero(ft@, '/');
            assert(f < n);
            assert(find_char(ft@, '/') == f);
        }
        let rest = subvec_chars(&ft, f + 1, n);
        let m = rest.len();
        let mut g: usize = 0;
        while g < m && rest[g] != '/'
            invariant
                m == rest@.len(),
                g <= m,
                forall|k: int| 0 <= k < g ==> rest@[k] != '/',
            decreases m - g,
        {
            g = g + 1;
        }
        proof {
            crate::query::lemma_find_char_props(rest@, '/');
            if g < m {
                assert(find_char(rest@, '/') == g);
            } else {
                assert(find_char(rest@, '/') == m);
            }
        }
        let ext = subvec_chars(&rest, 0, g);
        let ext_s = string_from_chars(&ext);
        let r = String::from_str(path).concat("/").concat(self.id.as_str()).concat(".").concat(
            ext_s.as_str(),
        );
        proof {
            assert(r@ =~= path@ + "/"@ + self.id@ + "."@ + second_slash_piece(self.file_type@));
        }
        r
    }

    /// The direct download URL of the wallpaper.
    pub fn get_url(&self) -> (r: &str)
        ensures
            r@ == self.path@,
    {
        self.path.as_str()
    }
}

} // verus!
