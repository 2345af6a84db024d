//! MIME types of a clipboard offer, and the choice of the one to receive.
//!
//! A list of advertised types is modelled as a `Seq<Seq<char>>`, in the order
//! in which the compositor announced them.

use vstd::prelude::*;

verus! {

/// The canonical text type, the one the text fast path asks for.
pub const TEXT: &'static str = "text/plain;charset=utf-8";

/// What every image type begins with.
pub const IMAGE: &'static str = "image/";

/// The characters of each string of a list.
pub open spec fn views(list: Seq<String>) -> Seq<Seq<char>> {
    list.map_values(|s: String| s@)
}

/// The characters of each string of an optional list.
pub open spec fn option_views(list: Option<Vec<String>>) -> Option<Seq<Seq<char>>> {
    match list {
        Some(l) => Some(views(l@)),
        None => None,
    }
}

/// The canonical text type, as a sequence of characters.
pub open spec fn text_mime() -> Seq<char> {
    TEXT@
}

/// A type is an image type when it begins with `image/`.
pub open spec fn is_image(mime: Seq<char>) -> bool {
    IMAGE@.is_prefix_of(mime)
}

/// Some type of the list is an image type.
pub open spec fn has_image(mimes: Seq<Seq<char>>) -> bool {
    exists|i: int| 0 <= i < mimes.len() && is_image(#[trigger] mimes[i])
}

/// A list is textual when it holds the canonical text type and no image type.
pub open spec fn is_text(mimes: Seq<Seq<char>>) -> bool {
    mimes.contains(text_mime()) && !has_image(mimes)
}

/// The text fast path: the canonical text type for an empty or a textual
/// list, else the type that was advertised first.
pub open spec fn fast_path(mimes: Seq<Seq<char>>) -> Seq<char> {
    if mimes.len() == 0 || is_text(mimes) {
        text_mime()
    } else {
        mimes[0]
    }
}

/// `priority[i]` is advertised, and no earlier entry of `priority` is.
pub open spec fn preferred_at(priority: Seq<Seq<char>>, mimes: Seq<Seq<char>>, i: int) -> bool {
    &&& 0 <= i < priority.len()
    &&& mimes.contains(priority[i])
    &&& forall|j: int| 0 <= j < i ==> !mimes.contains(#[trigger] priority[j])
}

/// The first entry of `priority` that is advertised, if there is one.
pub open spec fn first_present(priority: Seq<Seq<char>>, mimes: Seq<Seq<char>>) -> Option<
    Seq<char>,
> {
    if exists|i: int| preferred_at(priority, mimes, i) {
        Some(priority[choose|i: int| preferred_at(priority, mimes, i)])
    } else {
        None
    }
}

/// The type to receive: the first advertised entry of the priority list
/// where one is set and matches, else what the text fast path gives.
pub open spec fn negotiated(mimes: Seq<Seq<char>>, priority: Option<Seq<Seq<char>>>) -> Seq<char> {
    match priority {
        Some(p) => match first_present(p, mimes) {
            Some(m) => m,
            None => fast_path(mimes),
        },
        None => fast_path(mimes),
    }
}

/// At most one index of a priority list is the first advertised one.
pub proof fn lemma_preferred_unique(
    priority: Seq<Seq<char>>,
    mimes: Seq<Seq<char>>,
    i: int,
    j: int,
)
    requires
        preferred_at(priority, mimes, i),
        preferred_at(priority, mimes, j),
    ensures
        i == j,
{
    if i < j {
        assert(!mimes.contains(priority[i]));
    } else if j < i {
        assert(!mimes.contains(priority[j]));
    }
}

/// Whether `mime` begins with `image/`.
pub fn is_image_type(mime: &str) -> (r: bool)
    ensures
        r == is_image(mime@),
{
    let n: usize = mime.unicode_len();
    let k: usize = IMAGE.unicode_len();
    if n < k {
        return false;
    }
    let mut i: usize = 0;
    while i < k
        invariant
            i <= k <= n,
            n == mime@.len(),
            k == IMAGE@.len(),
            forall|j: int| 0 <= j < i ==> mime@[j] == IMAGE@[j],
        decreases k - i,
    {
        if mime.get_char(i) != IMAGE.get_char(i) {
            return false;
        }
        i += 1;
    }
    assert(mime@.subrange(0, k as int) =~= IMAGE@);
    true
}

/// Whether `item` occurs in `list`.
pub fn contains(list: &Vec<String>, item: &String) -> (r: bool)
    ensures
        r == views(list@).contains(item@),
{
    let mut i: usize = 0;
    while i < list.len()
        invariant
            i <= list.len(),
            forall|j: int| 0 <= j < i ==> views(list@)[j] != item@,
        decreases list.len() - i,
    {
        if list[i] == *item {
            assert(views(list@)[i as int] == item@);
            return true;
        }
        i += 1;
    }
    false
}

/// Whether some type of `list` is an image type.
pub fn has_image_type(list: &Vec<String>) -> (r: bool)
    ensures
        r == has_image(views(list@)),
{
    let mut i: usize = 0;
    while i < list.len()
        invariant
            i <= list.len(),
            forall|j: int| 0 <= j < i ==> !is_image(#[trigger] views(list@)[j]),
        decreases list.len() - i,
    {
        if is_image_type(list[i].as_str()) {
            assert(is_image(views(list@)[i as int]));
            return true;
        }
        i += 1;
    }
    false
}

/// Whether `list` holds the canonical text type and no image type.
pub fn is_text_list(list: &Vec<String>) -> (r: bool)
    ensures
        r == is_text(views(list@)),
{
    let text = TEXT.to_owned();
    contains(list, &text) && !has_image_type(list)
}

/// The text fast path on `list`.
pub fn select_mimetype(list: &Vec<String>) -> (r: String)
    ensures
        r@ == fast_path(views(list@)),
{
    if list.len() == 0 || is_text_list(list) {
        TEXT.to_owned()
    } else {
        list[0].clone()
    }
}

/// The first entry of `priority` that occurs in `list`.
pub fn first_of_priority(priority: &Vec<String>, list: &Vec<String>) -> (r: Option<String>)
    ensures
        match r {
            Some(m) => first_present(views(priority@), views(list@)) == Some(m@),
            None => first_present(views(priority@), views(list@)) is None,
        },
{
    let mut i: usize = 0;
    while i < priority.len()
        invariant
            i <= priority.len(),
            forall|j: int| 0 <= j < i ==> !views(list@).contains(#[trigger] views(priority@)[j]),
        decreases priority.len() - i,
    {
        if contains(list, &priority[i]) {
            proof {
                let p = views(priority@);
                let m = views(list@);
                assert(preferred_at(p, m, i as int));
                lemma_preferred_unique(p, m, i as int, choose|k: int| preferred_at(p, m, k));
            }
            return Some(priority[i].clone());
        }
        i += 1;
    }
    None
}

/// The type to receive from an offer that advertises `list`, under an
/// optional priority list.
pub fn negotiate(list: &Vec<String>, priority: &Option<Vec<String>>) -> (r: String)
    ensures
        r@ == negotiated(views(list@), option_views(*priority)),
{
    match priority {
        Some(p) => match first_of_priority(p, list) {
            Some(m) => m,
            None => select_mimetype(list),
        },
        None => select_mimetype(list),
    }
}

} // verus!
