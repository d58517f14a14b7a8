//! Indicator configuration: averaging methods, price sources, the colour
//! palette for new moving averages, identifiers and recalculation rules.
use vstd::prelude::*;
use crate::interval::same_text;

verus! {

/// How a moving average weighs its window.
#[derive(Clone, Copy, Debug, PartialEq, Eq, Structural)]
pub enum MaType {
    SMA,
    EMA,
}

/// Which price of a candle an indicator follows.
#[derive(Clone, Copy, Debug, PartialEq, Eq, Structural)]
pub enum MaSource {
    Close,
    Open,
    High,
    Low,
    HL2,
    HLC3,
}

impl MaType {
    /// `"EMA"` or `"ema"` selects the exponential average; anything else the simple one.
    pub open spec fn spec_from_method(method: Seq<char>) -> MaType {
        if method == "EMA"@ || method == "ema"@ {
            MaType::EMA
        } else {
            MaType::SMA
        }
    }

    pub fn from_method(method: &str) -> (r: MaType)
        ensures
            r == Self::spec_from_method(method@),
            method@ == "EMA"@ || method@ == "ema"@ ==> r == MaType::EMA,
            method@ != "EMA"@ && method@ != "ema"@ ==> r == MaType::SMA,
    {
        if same_text(method, "EMA") || same_text(method, "ema") {
            MaType::EMA
        } else {
            MaType::SMA
        }
    }
}

impl MaSource {
    /// The source for a name in title or lower case; anything else is the close.
    pub open spec fn spec_from_name(name: Seq<char>) -> MaSource {
        if name == "Open"@ || name == "open"@ {
            MaSource::Open
        } else if name == "High"@ || name == "high"@ {
            MaSource::High
        } else if name == "Low"@ || name == "low"@ {
            MaSource::Low
        } else if name == "HL2"@ || name == "hl2"@ {
            MaSource::HL2
        } else if name == "HLC3"@ || name == "hlc3"@ {
            MaSource::HLC3
        } else {
            MaSource::Close
        }
    }

    pub fn from_name(name: &str) -> (r: MaSource)
        ensures
            r == Self::spec_from_name(name@),
            name@ == "Open"@ || name@ == "open"@ ==> r == MaSource::Open,
            name@ == "High"@ || name@ == "high"@ ==> r == MaSource::High,
            name@ == "Low"@ || name@ == "low"@ ==> r == MaSource::Low,
            name@ == "HL2"@ || name@ == "hl2"@ ==> r == MaSource::HL2,
            name@ == "HLC3"@ || name@ == "hlc3"@ ==> r == MaSource::HLC3,
    {
        proof {
            lemma_source_names(name@);
        }
        if same_text(name, "Open") || same_text(name, "open") {
            MaSource::Open
        } else if same_text(name, "High") || same_text(name, "high") {
            MaSource::High
        } else if same_text(name, "Low") || same_text(name, "low") {
            MaSource::Low
        } else if same_text(name, "HL2") || same_text(name, "hl2") {
            MaSource::HL2
        } else if same_text(name, "HLC3") || same_text(name, "hlc3") {
            MaSource::HLC3
        } else {
            MaSource::Close
        }
    }
}

/// The colours offered to new moving averages, in order of preference.
pub open spec fn ma_palette() -> Seq<Seq<char>> {
    seq![
        "#FFA500"@,
        "#00FF00"@,
        "#FF00FF"@,
        "#00FFFF"@,
        "#FFFF00"@,
        "#FF0000"@,
        "#0000FF"@,
        "#FFFFFF"@,
    ]
}

/// The texts held by a sequence of strings.
pub open spec fn texts(v: Seq<String>) -> Seq<Seq<char>> {
    v.map_values(|s: String| s@)
}

/// The first colour of `palette` that `used` does not hold, else `fallback`.
pub open spec fn first_unused(palette: Seq<Seq<char>>, used: Seq<Seq<char>>, fallback: Seq<char>) -> Seq<char>
    decreases palette.len(),
{
    if palette.len() == 0 {
        fallback
    } else if !used.contains(palette[0]) {
        palette[0]
    } else {
        first_unused(palette.drop_first(), used, fallback)
    }
}

/// The colour of a new moving average when the existing ones have the colours
/// `used`: the first palette colour that no existing one has; when all are
/// taken, the palette entry at the number of existing averages modulo its size.
pub open spec fn spec_choose_ma_color(used: Seq<Seq<char>>) -> Seq<char> {
    first_unused(ma_palette(), used, ma_palette()[(used.len() % ma_palette().len()) as int])
}

fn palette_strings() -> (r: Vec<String>)
    ensures
        texts(r@) == ma_palette(),
{
    let r: Vec<String> = vec![
        "#FFA500".to_owned(),
        "#00FF00".to_owned(),
        "#FF00FF".to_owned(),
        "#00FFFF".to_owned(),
        "#FFFF00".to_owned(),
        "#FF0000".to_owned(),
        "#0000FF".to_owned(),
        "#FFFFFF".to_owned(),
    ];
    assert(texts(r@) =~= ma_palette());
    r
}

fn holds_text(v: &Vec<String>, s: &String) -> (r: bool)
    ensures
        r == texts(v@).contains(s@),
{
    let mut j: usize = 0;
    while j < v.len()
        invariant
            j <= v@.len(),
            forall|k: int| 0 <= k < j ==> v@[k]@ != s@,
        decreases v@.len() - j,
    {
        if v[j] == *s {
            assert(texts(v@)[j as int] == s@);
            return true;
        }
        j += 1;
    }
    assert(!texts(v@).contains(s@)) by {
        if texts(v@).contains(s@) {
            let k = choose|k: int| 0 <= k < texts(v@).len() && texts(v@)[k] == s@;
            assert(v@[k]@ == s@);
        }
    }
    false
}

/// Picks the colour for a new moving average.
pub fn choose_ma_color(used: &Vec<String>) -> (r: String)
    ensures
        r@ == spec_choose_ma_color(texts(used@)),
        (exists|i: int| 0 <= i < 8 && !texts(used@).contains(#[trigger] preferred_ma_colors()[i])) ==> exists|i: int|
            0 <= i < 8 && !texts(used@).contains(preferred_ma_colors()[i]) && r@ == preferred_ma_colors()[i]
                && forall|j: int| 0 <= j < i ==> texts(used@).contains(#[trigger] preferred_ma_colors()[j]),
        (forall|i: int| 0 <= i < 8 ==> texts(used@).contains(#[trigger] preferred_ma_colors()[i])) ==> r@
            == preferred_ma_colors()[(used@.len() % 8) as int],
{
    proof {
        lemma_ma_color_is_first_unused(texts(used@));
    }
    let palette = palette_strings();
    let n = palette.len();
    let fallback_index = used.len() % n;
    let ghost fallback = ma_palette()[(used@.len() % ma_palette().len()) as int];
    assert(palette@[fallback_index as int]@ == fallback) by {
        assert(texts(palette@)[fallback_index as int] == palette@[fallback_index as int]@);
    }
    assert(texts(palette@).subrange(0, 8) =~= texts(palette@));
    assert(texts(used@).len() == used@.len());
    let mut k: usize = 0;
    while k < n
        invariant
            n == palette@.len() == 8,
            texts(palette@) == ma_palette(),
            k <= n,
            spec_choose_ma_color(texts(used@)) == first_unused(texts(palette@).subrange(k as int, 8), texts(used@), fallback),
        decreases n - k,
    {
        let ghost rest = texts(palette@).subrange(k as int, 8);
        assert(rest[0] == palette@[k as int]@);
        assert(rest.drop_first() =~= texts(palette@).subrange(k + 1, 8));
        if !holds_text(used, &palette[k]) {
            proof {
                lemma_ma_color_is_first_unused(texts(used@));
            }
            return palette[k].clone();
        }
        k += 1;
    }
    assert(texts(palette@).subrange(8, 8).len() == 0);
    palette[fallback_index].clone()
}

proof fn lemma_first_unused_from(palette: Seq<Seq<char>>, used: Seq<Seq<char>>, fallback: Seq<char>)
    ensures
        palette.contains(first_unused(palette, used, fallback)) || first_unused(palette, used, fallback) == fallback,
        !used.contains(first_unused(palette, used, fallback)) || first_unused(palette, used, fallback) == fallback,
    decreases palette.len(),
{
    if palette.len() > 0 && used.contains(palette[0]) {
        lemma_first_unused_from(palette.drop_first(), used, fallback);
        let r = first_unused(palette.drop_first(), used, fallback);
        if palette.drop_first().contains(r) {
            let k = choose|k: int| 0 <= k < palette.drop_first().len() && palette.drop_first()[k] == r;
            assert(palette[k + 1] == r);
        }
    } else if palette.len() > 0 {
        assert(palette[0] == first_unused(palette, used, fallback));
    }
}

/// A new moving average always gets a palette colour, and one that no
/// existing average has whenever such a colour is left.
pub proof fn lemma_ma_color_from_palette(used: Seq<Seq<char>>)
    ensures
        ma_palette().contains(spec_choose_ma_color(used)),
        (exists|i: int| 0 <= i < ma_palette().len() && !used.contains(#[trigger] ma_palette()[i]))
            ==> !used.contains(spec_choose_ma_color(used)),
{
    let p = ma_palette();
    let fb = p[(used.len() % p.len()) as int];
    lemma_first_unused_from(p, used, fb);
    lemma_first_unused_all_used(p, used, fb);
}

proof fn lemma_first_unused_all_used(palette: Seq<Seq<char>>, used: Seq<Seq<char>>, fallback: Seq<char>)
    ensures
        (exists|i: int| 0 <= i < palette.len() && !used.contains(#[trigger] palette[i]))
            ==> !used.contains(first_unused(palette, used, fallback)),
    decreases palette.len(),
{
    if palette.len() > 0 && used.contains(palette[0]) {
        lemma_first_unused_all_used(palette.drop_first(), used, fallback);
        if exists|i: int| 0 <= i < palette.len() && !used.contains(#[trigger] palette[i]) {
            let i = choose|i: int| 0 <= i < palette.len() && !used.contains(#[trigger] palette[i]);
            assert(i != 0);
            assert(palette.drop_first()[i - 1] == palette[i]);
        }
    }
}

/// Whether new moving-average settings call for recomputing its values: the
/// period, the source or the method changed.
pub fn ma_needs_recalc(
    old_period: usize,
    new_period: usize,
    old_source: &str,
    new_source: &str,
    old_method: &str,
    new_method: &str,
) -> (r: bool)
    ensures
        r == (old_period != new_period || old_source@ != new_source@ || old_method@ != new_method@),
{
    old_period != new_period || !same_text(old_source, new_source) || !same_text(old_method, new_method)
}

/// Whether new band settings call for recomputing the bands: the period, the
/// source or the multiplier changed (the last is compared by the caller).
pub fn bb_needs_recalc(
    old_period: usize,
    new_period: usize,
    old_source: &str,
    new_source: &str,
    multiplier_changed: bool,
) -> (r: bool)
    ensures
        r == (old_period != new_period || old_source@ != new_source@ || multiplier_changed),
{
    old_period != new_period || !same_text(old_source, new_source) || multiplier_changed
}

/// The position of the first entry equal to `id`.
pub fn find_id(ids: &Vec<u32>, id: u32) -> (r: Option<usize>)
    ensures
        match r {
            Some(i) => i < ids@.len() && ids@[i as int] == id && forall|j: int|
                0 <= j < i ==> ids@[j] != id,
            None => !ids@.contains(id),
        },
{
    let mut i: usize = 0;
    while i < ids.len()
        invariant
            i <= ids@.len(),
            forall|j: int| 0 <= j < i ==> ids@[j] != id,
        decreases ids@.len() - i,
    {
        if ids[i] == id {
            return Some(i);
        }
        i += 1;
    }
    None
}

/// The identifiers of the bands to append so that a list of `len` bands gets
/// an entry at `index`, numbered on from `next_id`, and the next free
/// identifier after them.
pub fn band_ids_to_add(len: usize, index: usize, next_id: u32) -> (r: (Vec<u32>, u32))
    requires
        index < usize::MAX,
        len <= index ==> next_id + (index - len + 1) <= u32::MAX,
    ensures
        len > index ==> r.0@.len() == 0 && r.1 == next_id,
        len <= index ==> r.0@.len() == index - len + 1 && r.1 == next_id + (index - len + 1),
        forall|k: int| 0 <= k < r.0@.len() ==> r.0@[k] == next_id + k,
{
    let mut ids: Vec<u32> = Vec::new();
    let mut next = next_id;
    let mut have = len;
    while have <= index
        invariant
            len <= have,
            index < usize::MAX,
            len <= index ==> have <= index + 1,
            len > index ==> have == len,
            len <= index ==> next_id + (index - len + 1) <= u32::MAX,
            ids@.len() == have - len,
            next == next_id + (have - len),
            forall|k: int| 0 <= k < ids@.len() ==> ids@[k] == next_id + k,
        decreases index + 1 - have,
    {
        ids.push(next);
        next = next + 1;
        have = have + 1;
    }
    (ids, next)
}

} // verus!

verus! {

/// Each accepted source name selects the price it names, in title or lower
/// case; every other name selects the close.
pub proof fn lemma_source_names(name: Seq<char>)
    ensures
        name == "Open"@ || name == "open"@ ==> MaSource::spec_from_name(name) == MaSource::Open,
        name == "High"@ || name == "high"@ ==> MaSource::spec_from_name(name) == MaSource::High,
        name == "Low"@ || name == "low"@ ==> MaSource::spec_from_name(name) == MaSource::Low,
        name == "HL2"@ || name == "hl2"@ ==> MaSource::spec_from_name(name) == MaSource::HL2,
        name == "HLC3"@ || name == "hlc3"@ ==> MaSource::spec_from_name(name) == MaSource::HLC3,
        name != "Open"@ && name != "open"@ && name != "High"@ && name != "high"@ && name != "Low"@
            && name != "low"@ && name != "HL2"@ && name != "hl2"@ && name != "HLC3"@ && name
            != "hlc3"@ ==> MaSource::spec_from_name(name) == MaSource::Close,
{
    reveal_strlit("Open");
    reveal_strlit("open");
    reveal_strlit("High");
    reveal_strlit("high");
    reveal_strlit("Low");
    reveal_strlit("low");
    reveal_strlit("HL2");
    reveal_strlit("hl2");
    reveal_strlit("HLC3");
    reveal_strlit("hlc3");
    assert("Open"@[0] == 'O' && "open"@[0] == 'o' && "High"@[0] == 'H' && "high"@[0] == 'h');
    assert("Low"@[0] == 'L' && "low"@[0] == 'l' && "HL2"@.len() == 3 && "hl2"@.len() == 3);
    assert("HLC3"@.len() == 4 && "hlc3"@.len() == 4 && "Open"@.len() == 4 && "High"@.len() == 4);
    assert("HL2"@[0] == 'H' && "HL2"@[1] == 'L' && "High"@[1] == 'i' && "hl2"@[0] == 'h' && "hl2"@[1] == 'l');
    assert("HLC3"@[1] == 'L' && "hlc3"@[1] == 'l' && "high"@[1] == 'i' && "open"@.len() == 4);
    assert("low"@.len() == 3 && "Low"@.len() == 3 && "high"@.len() == 4);
}

/// `"EMA"` and `"ema"` select the exponential average and every other name the
/// simple one.
pub proof fn lemma_method_names(method: Seq<char>)
    ensures
        method == "EMA"@ || method == "ema"@ ==> MaType::spec_from_method(method) == MaType::EMA,
        method != "EMA"@ && method != "ema"@ ==> MaType::spec_from_method(method) == MaType::SMA,
{
}

/// The moving-average colours in order of preference: orange, lime, magenta,
/// cyan, yellow, red, blue, white.
pub open spec fn preferred_ma_colors() -> Seq<Seq<char>> {
    seq![
        "#FFA500"@, "#00FF00"@, "#FF00FF"@, "#00FFFF"@, "#FFFF00"@, "#FF0000"@, "#0000FF"@, "#FFFFFF"@,
    ]
}

proof fn lemma_first_unused_least(palette: Seq<Seq<char>>, used: Seq<Seq<char>>, fallback: Seq<char>)
    ensures
        (exists|i: int| 0 <= i < palette.len() && !used.contains(#[trigger] palette[i])) ==> exists|i: int|
            0 <= i < palette.len() && !used.contains(palette[i]) && first_unused(palette, used, fallback)
                == palette[i] && forall|j: int| 0 <= j < i ==> used.contains(#[trigger] palette[j]),
        (forall|i: int| 0 <= i < palette.len() ==> used.contains(#[trigger] palette[i])) ==> first_unused(
            palette,
            used,
            fallback,
        ) == fallback,
    decreases palette.len(),
{
    if palette.len() > 0 {
        let rest = palette.drop_first();
        lemma_first_unused_least(rest, used, fallback);
        if used.contains(palette[0]) {
            if exists|i: int| 0 <= i < palette.len() && !used.contains(#[trigger] palette[i]) {
                let i0 = choose|i: int| 0 <= i < palette.len() && !used.contains(#[trigger] palette[i]);
                assert(rest[i0 - 1] == palette[i0]);
                let k = choose|k: int|
                    0 <= k < rest.len() && !used.contains(rest[k]) && first_unused(rest, used, fallback)
                        == rest[k] && forall|j: int| 0 <= j < k ==> used.contains(#[trigger] rest[j]);
                assert(palette[k + 1] == rest[k]);
                assert forall|j: int| 0 <= j < k + 1 implies used.contains(#[trigger] palette[j]) by {
                    if j > 0 {
                        assert(palette[j] == rest[j - 1]);
                    }
                }
            }
            if forall|i: int| 0 <= i < palette.len() ==> used.contains(#[trigger] palette[i]) {
                assert forall|i: int| 0 <= i < rest.len() implies used.contains(#[trigger] rest[i]) by {
                    assert(rest[i] == palette[i + 1]);
                }
            }
        }
    }
}

/// A new moving average gets the most preferred colour that no existing
/// average has; when every colour is taken, the colours repeat in order, the
/// entry at the number of existing averages modulo eight.
pub proof fn lemma_ma_color_is_first_unused(used: Seq<Seq<char>>)
    ensures
        (exists|i: int| 0 <= i < 8 && !used.contains(#[trigger] preferred_ma_colors()[i])) ==> exists|i: int|
            0 <= i < 8 && !used.contains(preferred_ma_colors()[i]) && spec_choose_ma_color(used)
                == preferred_ma_colors()[i] && forall|j: int|
                0 <= j < i ==> used.contains(#[trigger] preferred_ma_colors()[j]),
        (forall|i: int| 0 <= i < 8 ==> used.contains(#[trigger] preferred_ma_colors()[i]))
            ==> spec_choose_ma_color(used) == preferred_ma_colors()[(used.len() % 8) as int],
{
    assert(ma_palette() =~= preferred_ma_colors());
    let fb = ma_palette()[(used.len() % 8) as int];
    lemma_first_unused_least(preferred_ma_colors(), used, fb);
}

} // verus!
