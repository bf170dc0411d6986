//! Which of the embedded assets are fonts.

use vstd::prelude::*;

verus! {

/// Whether a path names a TrueType font: whether it ends in `.ttf`.
pub open spec fn names_font(path: Seq<char>) -> bool {
    path.len() >= 4 && path.subrange(path.len() - 4, path.len() as int) == seq!['.', 't', 't', 'f']
}

/// The paths among `paths` that name a font, in order.
pub open spec fn fonts_among(paths: Seq<String>) -> Seq<Seq<char>>
    decreases paths.len(),
{
    if paths.len() == 0 {
        Seq::empty()
    } else if names_font(paths.last()@) {
        fonts_among(paths.drop_last()).push(paths.last()@)
    } else {
        fonts_among(paths.drop_last())
    }
}

/// The views of the given strings, in order.
pub open spec fn views(strings: Seq<String>) -> Seq<Seq<char>> {
    strings.map_values(|s: String| s@)
}

/// Whether a path names a TrueType font.
pub fn is_font_path(path: &str) -> (r: bool)
    ensures
        r == names_font(path@),
{
    let len: usize = path.unicode_len();
    if len < 4 {
        return false;
    }
    let matches = path.get_char(len - 4) == '.' && path.get_char(len - 3) == 't' && path.get_char(
        len - 2,
    ) == 't' && path.get_char(len - 1) == 'f';
    proof {
        let tail = path@.subrange(len - 4, len as int);
        let suffix = seq!['.', 't', 't', 'f'];
        if matches {
            assert(tail =~= suffix);
        } else {
            assert(tail[0] == path@[len - 4]);
            assert(tail[1] == path@[len - 3]);
            assert(tail[2] == path@[len - 2]);
            assert(tail[3] == path@[len - 1]);
            assert(suffix[0] == '.' && suffix[1] == 't' && suffix[2] == 't' && suffix[3] == 'f');
        }
    }
    matches
}

/// The font paths among the asset paths, in the order in which they are
/// listed.
pub fn font_paths(paths: &Vec<String>) -> (r: Vec<String>)
    ensures
        views(r@) == fonts_among(paths@),
{
    let mut fonts: Vec<String> = Vec::new();
    let mut i: usize = 0;
    assert(views(fonts@) =~= fonts_among(paths@.take(0)));
    while i < paths.len()
        invariant
            i <= paths.len(),
            views(fonts@) == fonts_among(paths@.take(i as int)),
        decreases paths.len() - i,
    {
        proof {
            assert(paths@.take(i + 1).drop_last() =~= paths@.take(i as int));
        }
        if is_font_path(paths[i].as_str()) {
            let ghost before = fonts@;
            fonts.push(paths[i].clone());
            assert(views(fonts@) =~= views(before).push(paths@[i as int]@));
        }
        i += 1;
    }
    assert(paths@.take(i as int) =~= paths@);
    fonts
}

} // verus!
