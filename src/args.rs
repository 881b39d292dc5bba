use vstd::prelude::*;

verus! {

/// The settings the display runs with.
#[derive(Debug, Clone)]
pub struct Args {
    /// Only players whose identity holds one of these words are monitored.
    pub whitelist: Vec<String>,
    pub play_icon: String,
    pub pause_icon: String,
    /// The line template, with `%icon%`, `%title%`, `%artist%`, `%album%` and `%player%`.
    pub format: String,
    /// Pause before the marquee starts over, in ms.
    pub delay_marquee: u32,
    /// Animation interval, in ms.
    pub effect_speed: u16,
    /// Width of the artist field; 0 never truncates.
    pub artist_width: u16,
    /// Width of the title field; 0 never truncates.
    pub title_width: u16,
    pub marquee: bool,
    pub ellipsis: bool,
    pub debug: bool,
}

/// What `str::to_lowercase` returns for `s`.
pub uninterp spec fn lower_of(s: Seq<char>) -> Seq<char>;

/// Relies on `str::to_lowercase`: the result depends on the characters alone.
#[verifier::external_body]
fn to_lower(s: &String) -> (r: String)
    ensures
        r@ == lower_of(s@),
{
    s.to_lowercase()
}

/// Whether `pat` occurs in `s` as a run of consecutive characters.
pub open spec fn occurs(pat: Seq<char>, s: Seq<char>) -> bool {
    exists|i: int| 0 <= i && i + pat.len() <= s.len() && #[trigger] s.subrange(i, i + pat.len()) == pat
}

/// Relies on `str::contains` with a string pattern: true when the pattern
/// matches a sub-slice of `s`.
#[verifier::external_body]
fn contains_str(s: &String, pat: &String) -> (r: bool)
    ensures
        r == occurs(pat@, s@),
{
    s.contains(pat.as_str())
}

impl Args {
    /// Whether a player of this identity is monitored: always with an empty
    /// whitelist or an unknown identity, else when some whitelisted word
    /// occurs in the identity, ignoring case.
    pub open spec fn spec_allows(&self, identity: Option<String>) -> bool {
        self.whitelist@.len() == 0 || identity is None || exists|k: int|
            0 <= k < self.whitelist@.len() && occurs(
                lower_of(#[trigger] self.whitelist@[k]@),
                lower_of(identity->Some_0@),
            )
    }

    pub fn allows(&self, identity: Option<String>) -> (r: bool)
        ensures
            r == self.spec_allows(identity),
    {
        if self.whitelist.len() == 0 {
            return true;
        }
        let id = match &identity {
            Some(id) => to_lower(id),
            None => return true,
        };
        let mut words: Vec<String> = Vec::new();
        let mut k: usize = 0;
        while k < self.whitelist.len()
            invariant
                k <= self.whitelist@.len(),
                words@.len() == k,
                forall|j: int| 0 <= j < k ==> (#[trigger] words@[j])@ == lower_of(self.whitelist@[j]@),
            decreases self.whitelist@.len() - k,
        {
            words.push(to_lower(&self.whitelist[k]));
            k = k + 1;
        }
        let r = any_word_occurs(&words, &id);
        proof {
            if r {
                let j = choose|j: int| 0 <= j < words@.len() && occurs(#[trigger] words@[j]@, id@);
                assert(occurs(lower_of(self.whitelist@[j]@), lower_of(identity->Some_0@)));
            } else {
                assert forall|j: int| 0 <= j < self.whitelist@.len() implies !occurs(
                    lower_of(#[trigger] self.whitelist@[j]@),
                    lower_of(identity->Some_0@),
                ) by {
                    assert(words@[j]@ == lower_of(self.whitelist@[j]@));
                }
            }
        }
        r
    }
}

/// Whether some word of `words` occurs in `text`; both are taken as given,
/// already case-folded.
pub fn any_word_occurs(words: &Vec<String>, text: &String) -> (r: bool)
    ensures
        r == exists|j: int| 0 <= j < words@.len() && occurs(#[trigger] words@[j]@, text@),
{
    let mut k: usize = 0;
    while k < words.len()
        invariant
            k <= words@.len(),
            forall|j: int| 0 <= j < k ==> !occurs(#[trigger] words@[j]@, text@),
        decreases words@.len() - k,
    {
        if contains_str(text, &words[k]) {
            return true;
        }
        k = k + 1;
    }
    false
}

} // verus!
