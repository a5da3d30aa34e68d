//! What a user can choose about the model and about loading a dataset.
use crate::text::{decimal_text, digit_char};
use vstd::prelude::*;

verus! {

/// The default budget for packed scene batches.
pub const DEFAULT_MAX_SCENE_BATCH_CACHE_SIZE: &'static str = "6GiB";

/// The highest degree of spherical harmonics.
pub const MAX_SH_DEGREE: u32 = 4;

/// What an alpha channel, or a mask, stands for.
#[derive(Clone, Copy, Debug, PartialEq, Eq, Structural)]
pub enum AlphaMode {
    /// Pixels that are not looked at.
    Masked,
    /// Pixels that are see-through.
    Transparent,
}

#[derive(Clone, Copy, Debug, PartialEq, Eq, Structural)]
pub struct ModelConfig {
    /// The degree of the spherical harmonics of the splats.
    pub sh_degree: u32,
}

impl ModelConfig {
    /// The configuration with this degree, which is at most four.
    pub fn new(sh_degree: u32) -> (r: Option<ModelConfig>)
        ensures
            r == (if sh_degree <= MAX_SH_DEGREE {
                Some(ModelConfig { sh_degree })
            } else {
                None
            }),
    {
        if sh_degree <= MAX_SH_DEGREE {
            Some(ModelConfig { sh_degree })
        } else {
            None
        }
    }
}

impl Default for ModelConfig {
    fn default() -> (r: Self)
        ensures
            r.sh_degree == 3,
    {
        ModelConfig { sh_degree: 3 }
    }
}

#[derive(Clone, Copy, Debug)]
pub struct LoadDatasetConfig {
    /// How many frames to load at most.
    pub max_frames: Option<usize>,
    /// The largest resolution of the images that are loaded.
    pub max_resolution: u32,
    /// Every how many images one goes to the evaluation set.
    pub eval_split_every: Option<usize>,
    /// Every how many frames one is loaded.
    pub subsample_frames: Option<u32>,
    /// Every how many points one is loaded.
    pub subsample_points: Option<u32>,
    /// What an alpha channel, or a mask, stands for.
    pub alpha_mode: Option<AlphaMode>,
    /// Whether a fisheye image without a mask of its own is masked outside the
    /// circle of its lens.
    pub fisheye_vignette_mask: bool,
    /// The budget, in bytes, for the frames that are kept.
    pub max_scene_batch_cache_size: u64,
}

impl LoadDatasetConfig {
    /// The defaults, with the given budget.
    pub fn with_cache_size(max_scene_batch_cache_size: u64) -> (r: LoadDatasetConfig)
        ensures
            r == (LoadDatasetConfig {
                max_frames: None,
                max_resolution: 1920,
                eval_split_every: None,
                subsample_frames: None,
                subsample_points: None,
                alpha_mode: None,
                fisheye_vignette_mask: true,
                max_scene_batch_cache_size,
            }),
    {
        LoadDatasetConfig {
            max_frames: None,
            max_resolution: 1920,
            eval_split_every: None,
            subsample_frames: None,
            subsample_points: None,
            alpha_mode: None,
            fisheye_vignette_mask: true,
            max_scene_batch_cache_size,
        }
    }
}

/// Why a text is no size.
#[derive(Clone, Copy, Debug, PartialEq, Eq, Structural)]
pub enum SizeError {
    /// It holds no number.
    Empty,
    /// It holds a character that has no place there.
    InvalidDigit,
    /// The number of bytes does not fit in 64 bits.
    PosOverflow,
}

/// What `parse_size::parse_size` makes of a text.
pub uninterp spec fn parsed_size(text: Seq<char>) -> Result<u64, SizeError>;

/// `parse_size::parse_size`: the number of bytes that the text names, or why it
/// names none. The result is that of the outside parser, whose errors are told
/// apart one by one.
#[verifier::external_body]
fn call_parse_size(s: &str) -> (r: Result<u64, SizeError>)
    requires
        size_text_ok(s@),
    ensures
        r == parsed_size(s@),
{
    match parse_size::parse_size(s) {
        Ok(bytes) => Ok(bytes),
        Err(parse_size::Error::Empty) => Err(SizeError::Empty),
        Err(parse_size::Error::InvalidDigit) => Err(SizeError::InvalidDigit),
        Err(_) => Err(SizeError::PosOverflow),
    }
}

pub open spec fn is_digit(c: char) -> bool {
    '0' <= c <= '9'
}

/// The number that the digits of a text spell, whatever stands between them.
pub open spec fn spelled(text: Seq<char>) -> int
    decreases text.len(),
{
    if text.len() == 0 {
        0
    } else if is_digit(text.last()) {
        10 * spelled(text.drop_last()) + (text.last() as int - '0' as int)
    } else {
        spelled(text.drop_last())
    }
}

/// The text holds a digit.
pub open spec fn has_digit(text: Seq<char>) -> bool
    decreases text.len(),
{
    text.len() > 0 && (is_digit(text.last()) || has_digit(text.drop_last()))
}

/// The text holds a point.
pub open spec fn has_point(text: Seq<char>) -> bool
    decreases text.len(),
{
    text.len() > 0 && (text.last() == '.' || has_point(text.drop_last()))
}

/// The text is a number without an exponent, or may become one: digits, with
/// spaces and underscores anywhere, and at most one point, behind a digit.
pub open spec fn is_plain(text: Seq<char>) -> bool
    decreases text.len(),
{
    text.len() > 0 ==> {
        let init = text.drop_last();
        let c = text.last();
        &&& is_plain(init)
        &&& is_digit(c) || c == '_' || c == ' ' || (c == '.' && has_digit(init) && !has_point(init))
    }
}

/// What a text in decimal spells is the number.
pub proof fn lemma_spelled(n: nat)
    ensures
        spelled(decimal_text(n)) == n,
    decreases n,
{
    let text = decimal_text(n);
    let d = (n % 10) as int;
    assert(digit_char(d) as int == '0' as int + d);
    if n < 10 {
        assert(text.drop_last() =~= Seq::<char>::empty());
        assert(spelled(text.drop_last()) == 0);
    } else {
        lemma_spelled(n / 10);
        assert(text.drop_last() =~= decimal_text(n / 10));
        assert(n == 10 * (n / 10) + n % 10);
    }
}

/// The character `i` has a place in a plain number: it is a digit, a space, an underscore,
/// or the first point, behind a digit.
pub open spec fn has_place(text: Seq<char>, i: int) -> bool {
    let c = text[i];
    ||| '0' <= c <= '9'
    ||| c == '_'
    ||| c == ' '
    ||| {
        &&& c == '.'
        &&& exists|j: int| 0 <= j < i && '0' <= (#[trigger] text[j]) <= '9'
        &&& forall|j: int| 0 <= j < i ==> (#[trigger] text[j]) != '.'
    }
}

/// A text is plain exactly when every character has its place, and holds a digit or a
/// point exactly when one of its characters is one.
pub proof fn lemma_plain(text: Seq<char>)
    ensures
        has_digit(text) <==> exists|j: int| 0 <= j < text.len() && '0' <= (#[trigger] text[j])
            <= '9',
        has_point(text) <==> exists|j: int| 0 <= j < text.len() && (#[trigger] text[j]) == '.',
        is_plain(text) <==> forall|i: int| 0 <= i < text.len() ==> #[trigger] has_place(text, i),
    decreases text.len(), 1int,
{
    if text.len() > 0 {
        let init = text.drop_last();
        let last = text.len() - 1;
        lemma_plain(init);
        assert forall|j: int| 0 <= j < last implies init[j] == text[j] by {}
        assert(text[last] == text.last());
        if has_digit(init) {
            let j = choose|j: int| 0 <= j < init.len() && '0' <= (#[trigger] init[j]) <= '9';
            assert('0' <= text[j] <= '9');
        }
        if exists|j: int| 0 <= j < text.len() && '0' <= (#[trigger] text[j]) <= '9' {
            let j = choose|j: int| 0 <= j < text.len() && '0' <= (#[trigger] text[j]) <= '9';
            if j < last {
                assert('0' <= init[j] <= '9');
            }
        }
        if has_point(init) {
            let j = choose|j: int| 0 <= j < init.len() && (#[trigger] init[j]) == '.';
            assert(text[j] == '.');
        }
        if exists|j: int| 0 <= j < text.len() && (#[trigger] text[j]) == '.' {
            let j = choose|j: int| 0 <= j < text.len() && (#[trigger] text[j]) == '.';
            if j < last {
                assert(init[j] == '.');
            }
        }
        assert forall|i: int| 0 <= i < last implies has_place(init, i) == #[trigger] has_place(
            text,
            i,
        ) by {
            lemma_place_stays(text, i);
        }
        lemma_last_place(text);
        assert(is_plain(text) == (is_plain(init) && has_place(text, last)));
        if is_plain(text) {
            assert forall|i: int| 0 <= i < text.len() implies #[trigger] has_place(text, i) by {
                if i < last {
                    assert(has_place(init, i));
                }
            }
        }
        if forall|i: int| 0 <= i < text.len() ==> #[trigger] has_place(text, i) {
            assert forall|i: int| 0 <= i < init.len() implies #[trigger] has_place(init, i) by {
                assert(has_place(text, i));
            }
            assert(has_place(text, last));
        }
    }
}

/// What stands behind a character does not bear on its place.
proof fn lemma_place_stays(text: Seq<char>, i: int)
    requires
        0 <= i < text.len() - 1,
    ensures
        has_place(text.drop_last(), i) == has_place(text, i),
{
    let init = text.drop_last();
    assert forall|j: int| 0 <= j <= i implies init[j] == text[j] by {}
    if exists|j: int| 0 <= j < i && '0' <= (#[trigger] text[j]) <= '9' {
        let j = choose|j: int| 0 <= j < i && '0' <= (#[trigger] text[j]) <= '9';
        assert('0' <= init[j] <= '9');
    }
    if exists|j: int| 0 <= j < i && '0' <= (#[trigger] init[j]) <= '9' {
        let j = choose|j: int| 0 <= j < i && '0' <= (#[trigger] init[j]) <= '9';
        assert('0' <= text[j] <= '9');
    }
    if forall|j: int| 0 <= j < i ==> (#[trigger] init[j]) != '.' {
        assert forall|j: int| 0 <= j < i implies (#[trigger] text[j]) != '.' by {
            assert(init[j] != '.');
        }
    }
    if forall|j: int| 0 <= j < i ==> (#[trigger] text[j]) != '.' {
        assert forall|j: int| 0 <= j < i implies (#[trigger] init[j]) != '.' by {
            assert(text[j] != '.');
        }
    }
}

/// The last character has its place exactly when the text ahead of it leaves it one.
proof fn lemma_last_place(text: Seq<char>)
    requires
        text.len() > 0,
    ensures
        ({
            let init = text.drop_last();
            let c = text.last();
            has_place(text, text.len() - 1) <==> is_digit(c) || c == '_' || c == ' ' || (c == '.'
                && has_digit(init) && !has_point(init))
        }),
    decreases text.len(), 0int,
{
    let init = text.drop_last();
    let last = text.len() - 1;
    lemma_plain(init);
    if has_digit(init) {
        let j = choose|j: int| 0 <= j < init.len() && '0' <= (#[trigger] init[j]) <= '9';
        assert('0' <= text[j] <= '9');
    }
    if exists|j: int| 0 <= j < last && '0' <= (#[trigger] text[j]) <= '9' {
        let j = choose|j: int| 0 <= j < last && '0' <= (#[trigger] text[j]) <= '9';
        assert('0' <= init[j] <= '9');
    }
    if has_point(init) {
        let j = choose|j: int| 0 <= j < init.len() && (#[trigger] init[j]) == '.';
        assert(text[j] == '.');
    }
    if exists|j: int| 0 <= j < last && (#[trigger] text[j]) == '.' {
        let j = choose|j: int| 0 <= j < last && (#[trigger] text[j]) == '.';
        assert(init[j] == '.');
    }
}

/// The number ahead of the character `i` is the largest of 64 bits, and the
/// character is a digit that rounds it up: the sum has no place.
pub open spec fn rounds_past_max(text: Seq<char>, i: int) -> bool {
    &&& 0 <= i < text.len()
    &&& is_plain(text.take(i))
    &&& spelled(text.take(i)) == u64::MAX
    &&& '5' <= text[i] <= '9'
}

/// The text is one that the outside parser handles: it counts characters in 32
/// bits, and it has no place for the largest number of 64 bits rounded up.
pub open spec fn size_text_ok(text: Seq<char>) -> bool {
    &&& text.len() <= i32::MAX
    &&& forall|i: int| !#[trigger] rounds_past_max(text, i)
}

/// What a longer text spells is no less, and it is plain only if its beginning
/// is.
proof fn lemma_longer_text(text: Seq<char>, i: int, j: int)
    requires
        0 <= i <= j <= text.len(),
    ensures
        0 <= spelled(text.take(i)) <= spelled(text.take(j)),
        is_plain(text.take(j)) ==> is_plain(text.take(i)),
    decreases j,
{
    if i < j {
        lemma_longer_text(text, i, j - 1);
        assert(text.take(j).drop_last() == text.take(j - 1));
    } else if i > 0 {
        lemma_longer_text(text, i - 1, i - 1);
        assert(text.take(i).drop_last() == text.take(i - 1));
    }
}

/// Whether the text is one that [`parse_size`] takes.
pub fn is_size_text(s: &str) -> (r: bool)
    ensures
        r == size_text_ok(s@),
{
    let n: usize = s.unicode_len();
    if n > i32::MAX as usize {
        return false;
    }
    let mut value: u128 = 0;
    let mut digit: bool = false;
    let mut point: bool = false;
    let mut i: usize = 0;
    while i < n
        invariant
            n == s@.len() <= i32::MAX,
            i <= n,
            is_plain(s@.take(i as int)),
            digit == has_digit(s@.take(i as int)),
            point == has_point(s@.take(i as int)),
            value == spelled(s@.take(i as int)),
            value <= u64::MAX,
            forall|k: int| k < i ==> !#[trigger] rounds_past_max(s@, k),
        decreases n - i,
    {
        let c: char = s.get_char(i);
        assert(s@.take(i + 1).drop_last() == s@.take(i as int));
        assert(s@.take(i + 1).last() == c);
        if '0' <= c && c <= '9' {
            let d: u128 = (c as u32 - '0' as u32) as u128;
            if value == u64::MAX as u128 && d >= 5 {
                assert(rounds_past_max(s@, i as int));
                return false;
            }
            if value > (u64::MAX as u128 - d) / 10 {
                assert forall|k: int| !#[trigger] rounds_past_max(s@, k) by {
                    if i < k < n {
                        lemma_longer_text(s@, i + 1, k);
                    }
                }
                return true;
            }
            value = value * 10 + d;
            digit = true;
        } else if c == '.' && digit && !point {
            point = true;
        } else if c != '_' && c != ' ' {
            assert forall|k: int| !#[trigger] rounds_past_max(s@, k) by {
                if i < k < n {
                    lemma_longer_text(s@, i + 1, k);
                }
            }
            return true;
        }
        i = i + 1;
    }
    true
}

/// The number of bytes that a text names, such as `6G`, `6000M`, `6000MiB` or
/// `6000MB`.
pub fn parse_size(s: &str) -> (r: Result<u64, SizeError>)
    requires
        size_text_ok(s@),
    ensures
        r == parsed_size(s@),
{
    call_parse_size(s)
}

} // verus!
