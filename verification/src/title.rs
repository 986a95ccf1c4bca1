//! The naming engine: turns a formatting template and one item's attributes
//! into a sanitized, length-bounded file name.
//!
//! A template holds placeholders `{field}` from a fixed vocabulary of item
//! attribute names. Formatting replaces every recognized placeholder with the
//! item's sanitized value for that field — the empty string where the field is
//! absent or null — and truncates the result to a length budget.

use vstd::prelude::*;
use crate::strutil::{chars_to_string, contains_exec, contains_pattern, occurs_at, occurs_at_exec, str_to_chars};

verus! {

// ---------------------------------------------------------------------------
// Sanitization
// ---------------------------------------------------------------------------

/// Whether a character may not appear in a file name.
pub open spec fn is_illegal_char(c: char) -> bool {
    ||| c == '/'
    ||| c == '\\'
    ||| c == '|'
    ||| c == '?'
    ||| c == '<'
    ||| c == '>'
    ||| c == ':'
    ||| c == '*'
    ||| c == '"'
}

/// An illegal character becomes `_`; every other character is kept.
pub open spec fn sanitize_char(c: char) -> char {
    if is_illegal_char(c) {
        '_'
    } else {
        c
    }
}

/// Character-wise sanitization of a string.
pub open spec fn sanitize(s: Seq<char>) -> Seq<char> {
    s.map_values(|c: char| sanitize_char(c))
}

/// Sanitization preserves the length of its input.
pub proof fn lemma_sanitize_preserves_length(s: Seq<char>)
    ensures
        sanitize(s).len() == s.len(),
{
}

/// Sanitization is idempotent: a sanitized string sanitizes to itself.
pub proof fn lemma_sanitize_idempotent(s: Seq<char>)
    ensures
        sanitize(sanitize(s)) == sanitize(s),
{
    assert(sanitize(sanitize(s)) =~= sanitize(s)) by {
        assert forall|i: int| 0 <= i < s.len() implies sanitize(sanitize(s))[i] == sanitize(s)[i]
        by {
            assert(sanitize_char(sanitize_char(s[i])) == sanitize_char(s[i]));
        }
    }
}

/// The sanitized form of one character.
fn sanitize_one(c: char) -> (r: char)
    ensures
        r == sanitize_char(c),
{
    match c {
        '/' | '\\' | '|' | '?' | '<' | '>' | ':' | '*' | '"' => '_',
        other => other,
    }
}

/// Appends the sanitized characters of `s` to `out`.
fn append_sanitized(out: &mut Vec<char>, s: &str)
    ensures
        final(out)@ == old(out)@ + sanitize(s@),
{
    let n = s.unicode_len();
    let mut i: usize = 0;
    while i < n
        invariant
            n == s@.len(),
            i <= n,
            out@ == old(out)@ + sanitize(s@).subrange(0, i as int),
        decreases n - i,
    {
        let c = s.get_char(i);
        let sc = sanitize_one(c);
        out.push(sc);
        proof {
            assert(out@ =~= old(out)@ + sanitize(s@).subrange(0, i + 1));
        }
        i = i + 1;
    }
    proof {
        assert(sanitize(s@).subrange(0, n as int) =~= sanitize(s@));
    }
}

/// Replaces illegal characters in file names with `_`.
/// This method always writes exactly as many characters as it reads.
pub fn clean(title: &str) -> (r: String)
    ensures
        r@ == sanitize(title@),
{
    let mut out: Vec<char> = Vec::new();
    append_sanitized(&mut out, title);
    chars_to_string(&out)
}

// ---------------------------------------------------------------------------
// The field vocabulary
// ---------------------------------------------------------------------------

/// The available fields, in the order the search API documents them.
pub open spec fn field_names() -> Seq<Seq<char>> {
    seq![
        "test"@,
        "allow_live_comments"@,
        "author"@,
        "author_flair_text"@,
        "author_fullname"@,
        "author_patreon_flair"@,
        "author_premium"@,
        "can_mod_post"@,
        "contest_mode"@,
        "created_utc"@,
        "crosspost_parent"@,
        "domain"@,
        "full_link"@,
        "id"@,
        "is_crosspostable"@,
        "is_meta"@,
        "is_original_content"@,
        "is_reddit_media_domain"@,
        "is_robot_indexable"@,
        "is_self"@,
        "is_video"@,
        "link_flair_background_color"@,
        "link_flair_text_color"@,
        "link_flair_text"@,
        "link_flair_type"@,
        "locked"@,
        "media_only"@,
        "no_follow"@,
        "num_comments"@,
        "num_crossposts"@,
        "over_18"@,
        "parent_whitelist_status"@,
        "permalink"@,
        "pinned"@,
        "post_hint"@,
        "pwls"@,
        "removed_by_category"@,
        "retrieved_on"@,
        "score"@,
        "selftext"@,
        "send_replies"@,
        "spoiler"@,
        "stickied"@,
        "subreddit"@,
        "subreddit_id"@,
        "subreddit_subscribers"@,
        "subreddit_type"@,
        "thumbnail"@,
        "title"@,
        "total_awards_received"@,
        "url"@,
        "whitelist_status"@,
        "wls"@,
    ]
}

/// The field with index `k` in the vocabulary.
fn field_name_at(k: usize) -> (s: &'static str)
    requires
        k < 53,
    ensures
        s@ == field_names()[k as int],
{
    if k == 0 {
        "test"
    } else if k == 1 {
        "allow_live_comments"
    } else if k == 2 {
        "author"
    } else if k == 3 {
        "author_flair_text"
    } else if k == 4 {
        "author_fullname"
    } else if k == 5 {
        "author_patreon_flair"
    } else if k == 6 {
        "author_premium"
    } else if k == 7 {
        "can_mod_post"
    } else if k == 8 {
        "contest_mode"
    } else if k == 9 {
        "created_utc"
    } else if k == 10 {
        "crosspost_parent"
    } else if k == 11 {
        "domain"
    } else if k == 12 {
        "full_link"
    } else if k == 13 {
        "id"
    } else if k == 14 {
        "is_crosspostable"
    } else if k == 15 {
        "is_meta"
    } else if k == 16 {
        "is_original_content"
    } else if k == 17 {
        "is_reddit_media_domain"
    } else if k == 18 {
        "is_robot_indexable"
    } else if k == 19 {
        "is_self"
    } else if k == 20 {
        "is_video"
    } else if k == 21 {
        "link_flair_background_color"
    } else if k == 22 {
        "link_flair_text_color"
    } else if k == 23 {
        "link_flair_text"
    } else if k == 24 {
        "link_flair_type"
    } else if k == 25 {
        "locked"
    } else if k == 26 {
        "media_only"
    } else if k == 27 {
        "no_follow"
    } else if k == 28 {
        "num_comments"
    } else if k == 29 {
        "num_crossposts"
    } else if k == 30 {
        "over_18"
    } else if k == 31 {
        "parent_whitelist_status"
    } else if k == 32 {
        "permalink"
    } else if k == 33 {
        "pinned"
    } else if k == 34 {
        "post_hint"
    } else if k == 35 {
        "pwls"
    } else if k == 36 {
        "removed_by_category"
    } else if k == 37 {
        "retrieved_on"
    } else if k == 38 {
        "score"
    } else if k == 39 {
        "selftext"
    } else if k == 40 {
        "send_replies"
    } else if k == 41 {
        "spoiler"
    } else if k == 42 {
        "stickied"
    } else if k == 43 {
        "subreddit"
    } else if k == 44 {
        "subreddit_id"
    } else if k == 45 {
        "subreddit_subscribers"
    } else if k == 46 {
        "subreddit_type"
    } else if k == 47 {
        "thumbnail"
    } else if k == 48 {
        "title"
    } else if k == 49 {
        "total_awards_received"
    } else if k == 50 {
        "url"
    } else if k == 51 {
        "whitelist_status"
    } else {
        "wls"
    }
}

// ---------------------------------------------------------------------------
// Items
// ---------------------------------------------------------------------------

/// The value of one item attribute: null, or a text.
///
/// The upstream source also carries numbers and booleans; those arrive here
/// already rendered as their text.
#[derive(Debug, Clone)]
pub enum FieldValue {
    /// The field is set to null.
    Null,

    /// The field's value, rendered as text.
    Text(String),
}

/// One item's attributes: a mapping from field name to value.
///
/// A lookup takes the first entry with the asked-for name; a field with no
/// entry behaves as null.
#[derive(Debug, Clone)]
pub struct Item {
    /// The attribute entries, looked up front to back.
    pub entries: Vec<(String, FieldValue)>,
}

/// The text of field `f` among `entries`: `None` where the field is absent
/// or null.
pub open spec fn item_value(entries: Seq<(String, FieldValue)>, f: Seq<char>) -> Option<Seq<char>>
    decreases entries.len(),
{
    if entries.len() == 0 {
        None
    } else if entries[0].0@ == f {
        match entries[0].1 {
            FieldValue::Null => None,
            FieldValue::Text(s) => Some(s@),
        }
    } else {
        item_value(entries.drop_first(), f)
    }
}

/// What is substituted for the placeholder of field `f`: the sanitized field
/// text, or the empty string where the field is absent or null.
pub open spec fn subst_text(entries: Seq<(String, FieldValue)>, f: Seq<char>) -> Seq<char> {
    match item_value(entries, f) {
        None => Seq::empty(),
        Some(s) => sanitize(s),
    }
}

/// A placeholder whose field is absent or null substitutes the empty string.
pub proof fn lemma_absent_field_substitutes_empty(
    entries: Seq<(String, FieldValue)>,
    f: Seq<char>,
)
    requires
        item_value(entries, f) is None,
    ensures
        subst_text(entries, f) == Seq::<char>::empty(),
{
}

impl Item {
    /// An item with no attributes.
    pub fn new() -> (it: Item)
        ensures
            it.entries@.len() == 0,
    {
        Item { entries: Vec::new() }
    }

    /// Adds one attribute entry.
    pub fn push_entry(&mut self, name: String, value: FieldValue)
        ensures
            final(self).entries@ == old(self).entries@.push((name, value)),
    {
        self.entries.push((name, value));
    }

    /// Looks up the text of field `f`: `None` where the field is absent or
    /// null.
    pub fn value_of(&self, f: &String) -> (r: Option<&String>)
        ensures
            match r {
                Some(s) => item_value(self.entries@, f@) == Some(s@),
                None => item_value(self.entries@, f@) is None,
            },
    {
        let ghost all = self.entries@;
        proof {
            assert(all.skip(0) =~= all);
        }
        let mut i: usize = 0;
        while i < self.entries.len()
            invariant
                i <= all.len(),
                all == self.entries@,
                item_value(all, f@) == item_value(all.skip(i as int), f@),
            decreases all.len() - i,
        {
            proof {
                assert(all.skip(i as int).len() != 0);
                assert(all.skip(i as int)[0] == all[i as int]);
                assert(all.skip(i as int).drop_first() =~= all.skip(i + 1));
            }
            let entry = &self.entries[i];
            if entry.0 == *f {
                match &entry.1 {
                    FieldValue::Null => {
                        return None;
                    },
                    FieldValue::Text(s) => {
                        return Some(s);
                    },
                }
            }
            i = i + 1;
        }
        proof {
            assert(all.skip(all.len() as int) =~= Seq::<(String, FieldValue)>::empty());
        }
        None
    }
}

// ---------------------------------------------------------------------------
// Templates
// ---------------------------------------------------------------------------

/// The placeholder text for field `f`: the name in curly braces.
pub open spec fn placeholder(f: Seq<char>) -> Seq<char> {
    seq!['{'] + f + seq!['}']
}

/// Whether the template `hay` begins with the placeholder of field `f`.
pub open spec fn placeholder_at(hay: Seq<char>, f: Seq<char>) -> bool {
    placeholder(f).is_prefix_of(hay)
}

/// The least index at or after `j` of a field whose placeholder begins `hay`.
pub open spec fn first_match(hay: Seq<char>, fields: Seq<Seq<char>>, j: int) -> Option<int>
    decreases fields.len() - j when 0 <= j <= fields.len()
{
    if j >= fields.len() {
        None
    } else if placeholder_at(hay, fields[j]) {
        Some(j)
    } else {
        first_match(hay, fields, j + 1)
    }
}

/// A successful `first_match` lies in range and its placeholder begins `hay`.
pub proof fn lemma_first_match_some(hay: Seq<char>, fields: Seq<Seq<char>>, j0: int, j: int)
    requires
        0 <= j0 <= fields.len(),
        first_match(hay, fields, j0) == Some(j),
    ensures
        j0 <= j < fields.len(),
        placeholder_at(hay, fields[j]),
    decreases fields.len() - j0,
{
    if j0 < fields.len() && !placeholder_at(hay, fields[j0]) {
        lemma_first_match_some(hay, fields, j0 + 1, j);
    }
}

/// The result of substituting every recognized placeholder of `hay` with its
/// field's text: the template is scanned left to right; at each position the
/// first field of `fields` whose placeholder starts there is substituted, and
/// a position where none does contributes its character unchanged.
pub open spec fn apply_template(
    hay: Seq<char>,
    fields: Seq<Seq<char>>,
    entries: Seq<(String, FieldValue)>,
) -> Seq<char>
    decreases hay.len(),
{
    if hay.len() == 0 {
        Seq::empty()
    } else {
        match first_match(hay, fields, 0) {
            Some(j) => {
                // The test restates what a successful match implies; it keeps
                // the recursion visibly decreasing.
                if 0 <= j < fields.len() && placeholder_at(hay, fields[j]) {
                    subst_text(entries, fields[j]) + apply_template(
                        hay.skip(placeholder(fields[j]).len() as int),
                        fields,
                        entries,
                    )
                } else {
                    Seq::empty()
                }
            },
            None => seq![hay[0]] + apply_template(hay.skip(1), fields, entries),
        }
    }
}

/// With no fields to recognize, substitution returns the template unchanged.
pub proof fn lemma_apply_template_no_fields(
    hay: Seq<char>,
    entries: Seq<(String, FieldValue)>,
)
    ensures
        apply_template(hay, Seq::empty(), entries) == hay,
    decreases hay.len(),
{
    if hay.len() != 0 {
        lemma_apply_template_no_fields(hay.skip(1), entries);
        assert(apply_template(hay, Seq::empty(), entries) =~= hay) by {
            assert(seq![hay[0]] + hay.skip(1) =~= hay);
        }
    } else {
        assert(apply_template(hay, Seq::empty(), entries) =~= hay);
    }
}

/// Substitution depends on the item only through the substituted texts: two
/// items that substitute the same text for every field format alike. In
/// particular, items that miss or null the same fields leave the same literal
/// text standing.
pub proof fn lemma_apply_template_depends_on_values(
    hay: Seq<char>,
    fields: Seq<Seq<char>>,
    e1: Seq<(String, FieldValue)>,
    e2: Seq<(String, FieldValue)>,
)
    requires
        forall|j: int|
            0 <= j < fields.len() ==> subst_text(e1, fields[j]) == subst_text(e2, fields[j]),
    ensures
        apply_template(hay, fields, e1) == apply_template(hay, fields, e2),
    decreases hay.len(),
{
    if hay.len() != 0 {
        match first_match(hay, fields, 0) {
            Some(j) => {
                lemma_first_match_some(hay, fields, 0, j);
                lemma_apply_template_depends_on_values(
                    hay.skip(placeholder(fields[j]).len() as int),
                    fields,
                    e1,
                    e2,
                );
            },
            None => {
                lemma_apply_template_depends_on_values(hay.skip(1), fields, e1, e2);
            },
        }
    }
}

/// The first `budget` characters of `s`, or all of `s` if it is shorter.
pub open spec fn truncated(s: Seq<char>, budget: int) -> Seq<char> {
    if budget < s.len() {
        s.take(budget)
    } else {
        s
    }
}

/// The predicate deciding which vocabulary fields a template mentions.
pub open spec fn recognized_pred(hay: Seq<char>) -> spec_fn(Seq<char>) -> bool {
    |f: Seq<char>| contains_pattern(hay, placeholder(f))
}

/// The vocabulary fields whose placeholder occurs in the template, in
/// vocabulary order.
pub open spec fn recognized_fields(hay: Seq<char>) -> Seq<Seq<char>> {
    field_names().filter(recognized_pred(hay))
}

/// For a template with no recognized placeholders, substitution returns the
/// template itself; formatting therefore returns it truncated to the budget,
/// unchanged otherwise.
pub proof fn lemma_format_no_recognized_placeholders(
    hay: Seq<char>,
    entries: Seq<(String, FieldValue)>,
)
    requires
        recognized_fields(hay).len() == 0,
    ensures
        apply_template(hay, recognized_fields(hay), entries) == hay,
{
    assert(recognized_fields(hay) =~= Seq::<Seq<char>>::empty());
    lemma_apply_template_no_fields(hay, entries);
}

/// A title formatter: the compiled form of one formatting template.
#[derive(Debug, Clone)]
pub struct Title {
    /// The sanitized formatting string.
    haystack: Vec<char>,

    /// The recognized fields present in the formatting string, in
    /// vocabulary order.
    fields: Vec<String>,

    /// The placeholder text of each recognized field, parallel to `fields`.
    patterns: Vec<Vec<char>>,
}

impl Title {
    /// The compiled template's internal consistency.
    pub closed spec fn wf(&self) -> bool {
        &&& self.patterns@.len() == self.fields@.len()
        &&& forall|j: int|
            0 <= j < self.fields@.len() ==> self.patterns@[j]@ == placeholder(
                #[trigger] self.fields@[j]@,
            )
    }

    /// The sanitized formatting string.
    pub closed spec fn spec_haystack(&self) -> Seq<char> {
        self.haystack@
    }

    /// The recognized fields.
    pub closed spec fn spec_fields(&self) -> Seq<Seq<char>> {
        self.fields@.map_values(|f: String| f@)
    }

    /// Generates a formatter from a formatting string.
    ///
    /// The formatting string is sanitized, and every vocabulary field whose
    /// placeholder occurs in it is recorded, in vocabulary order.
    pub fn new(haystack: &str) -> (t: Title)
        ensures
            t.wf(),
            t.spec_haystack() == sanitize(haystack@),
            t.spec_fields() == recognized_fields(sanitize(haystack@)),
    {
        let mut hay: Vec<char> = Vec::new();
        append_sanitized(&mut hay, haystack);
        let ghost h = hay@;
        let mut fields: Vec<String> = Vec::new();
        let mut patterns: Vec<Vec<char>> = Vec::new();
        let mut k: usize = 0;
        while k < 53
            invariant
                k <= 53,
                h == hay@,
                field_names().len() == 53,
                patterns@.len() == fields@.len(),
                forall|j: int|
                    0 <= j < fields@.len() ==> patterns@[j]@ == placeholder(
                        #[trigger] fields@[j]@,
                    ),
                fields@.map_values(|f: String| f@) == field_names().subrange(0, k as int).filter(
                    recognized_pred(h),
                ),
            decreases 53 - k,
        {
            let name = field_name_at(k);
            let pat = placeholder_chars(name);
            let found = contains_exec(&hay, &pat);
            let ghost prefix = field_names().subrange(0, k as int);
            let ghost prefix1 = field_names().subrange(0, k + 1);
            proof {
                reveal(Seq::filter);
                assert(prefix1.drop_last() =~= prefix);
                assert(prefix1.last() == field_names()[k as int]);
                assert(recognized_pred(h)(field_names()[k as int]) == contains_pattern(
                    h,
                    placeholder(name@),
                ));
            }
            if found {
                let ghost old_fields = fields@;
                fields.push(name.to_owned());
                patterns.push(pat);
                proof {
                    assert(fields@.map_values(|f: String| f@) =~= old_fields.map_values(
                        |f: String| f@,
                    ).push(name@));
                    assert(fields@.map_values(|f: String| f@) =~= prefix1.filter(
                        recognized_pred(h),
                    ));
                }
            } else {
                proof {
                    assert(fields@.map_values(|f: String| f@) =~= prefix1.filter(
                        recognized_pred(h),
                    ));
                }
            }
            k = k + 1;
        }
        proof {
            assert(field_names().subrange(0, 53) =~= field_names());
        }
        Title { haystack: hay, fields, patterns }
    }

    /// Returns whether the `{id}` placeholder is in the haystack.
    pub fn utilizes_id(&self) -> (r: bool)
        ensures
            r == self.spec_fields().contains("id"@),
    {
        let mut j: usize = 0;
        while j < self.fields.len()
            invariant
                j <= self.fields@.len(),
                forall|t: int| 0 <= t < j ==> self.fields@[t]@ != "id"@,
            decreases self.fields@.len() - j,
        {
            if crate::strutil::str_eq(self.fields[j].as_str(), "id") {
                proof {
                    assert(self.spec_fields()[j as int] == "id"@);
                    assert(self.spec_fields().contains("id"@));
                }
                return true;
            }
            j = j + 1;
        }
        proof {
            assert forall|t: int| 0 <= t < self.spec_fields().len() implies self.spec_fields()[t]
                != "id"@ by {
                assert(self.fields@[t]@ != "id"@);
            }
        }
        false
    }

    /// Returns the recognized fields.
    pub fn iter(&self) -> (r: &Vec<String>)
        ensures
            r@.map_values(|f: String| f@) == self.spec_fields(),
    {
        &self.fields
    }

    /// The first recognized field whose placeholder occurs in the haystack at
    /// position `i`, if any.
    fn first_field_at(&self, i: usize) -> (r: Option<usize>)
        requires
            self.wf(),
            i <= self.haystack@.len(),
        ensures
            match r {
                Some(j) => {
                    &&& j < self.fields@.len()
                    &&& first_match(self.haystack@.skip(i as int), self.spec_fields(), 0) == Some(
                        j as int,
                    )
                },
                None => first_match(self.haystack@.skip(i as int), self.spec_fields(), 0) is None,
            },
    {
        let ghost s = self.haystack@.skip(i as int);
        let ghost fv = self.spec_fields();
        let mut j: usize = 0;
        while j < self.patterns.len()
            invariant
                self.wf(),
                i <= self.haystack@.len(),
                j <= self.patterns@.len(),
                s == self.haystack@.skip(i as int),
                fv == self.spec_fields(),
                first_match(s, fv, 0) == first_match(s, fv, j as int),
            decreases self.patterns@.len() - j,
        {
            let matched = occurs_at_exec(&self.haystack, &self.patterns[j], i);
            proof {
                lemma_prefix_skip(self.haystack@, self.patterns@[j as int]@, i as int);
                assert(self.patterns@[j as int]@ == placeholder(fv[j as int]));
            }
            if matched {
                proof {
                    assert(placeholder_at(s, fv[j as int]));
                    assert(first_match(s, fv, j as int) == Some(j as int));
                }
                return Some(j);
            }
            proof {
                assert(!placeholder_at(s, fv[j as int]));
                assert(first_match(s, fv, j as int) == first_match(s, fv, j + 1));
            }
            j = j + 1;
        }
        None
    }

    /// Formats a title.
    ///
    /// Every recognized placeholder is replaced with the item's sanitized
    /// value for its field — the empty string where the field is absent or
    /// null — and the result is truncated to at most `length` characters.
    pub fn format(&self, item: &Item, length: usize) -> (r: String)
        requires
            self.wf(),
        ensures
            r@ == truncated(
                apply_template(self.spec_haystack(), self.spec_fields(), item.entries@),
                length as int,
            ),
    {
        let ghost hay = self.haystack@;
        let ghost fv = self.spec_fields();
        let ghost entries = item.entries@;
        let mut out: Vec<char> = Vec::new();
        proof {
            assert(hay.skip(0) =~= hay);
            assert(Seq::<char>::empty() + apply_template(hay, fv, entries) =~= apply_template(
                hay,
                fv,
                entries,
            ));
        }
        let mut i: usize = 0;
        while i < self.haystack.len()
            invariant
                self.wf(),
                i <= self.haystack@.len(),
                hay == self.haystack@,
                fv == self.spec_fields(),
                entries == item.entries@,
                apply_template(hay, fv, entries) == out@ + apply_template(
                    hay.skip(i as int),
                    fv,
                    entries,
                ),
            decreases self.haystack@.len() - i,
        {
            let ghost s = hay.skip(i as int);
            proof {
                assert(s.len() == hay.len() - i);
            }
            match self.first_field_at(i) {
                Some(j) => {
                    proof {
                        lemma_first_match_some(s, fv, 0, j as int);
                    }
                    let ghost old_out = out@;
                    match item.value_of(&self.fields[j]) {
                        Some(text) => {
                            append_sanitized(&mut out, text.as_str());
                            proof {
                                assert(out@ == old_out + subst_text(entries, fv[j as int]));
                            }
                        },
                        None => {
                            proof {
                                assert(subst_text(entries, fv[j as int]) =~= Seq::<char>::empty());
                                assert(out@ =~= old_out + subst_text(entries, fv[j as int]));
                            }
                        },
                    }
                    let plen = self.patterns[j].len();
                    proof {
                        assert(self.patterns@[j as int]@ == placeholder(fv[j as int]));
                        assert(placeholder(fv[j as int]).len() <= s.len());
                        assert(plen == placeholder(fv[j as int]).len());
                        assert(s.skip(plen as int) =~= hay.skip(i + plen));
                        assert(apply_template(s, fv, entries) == subst_text(entries, fv[j as int])
                            + apply_template(hay.skip(i + plen), fv, entries));
                        assert(apply_template(hay, fv, entries) == out@ + apply_template(
                            hay.skip(i + plen),
                            fv,
                            entries,
                        ));
                    }
                    i = i + plen;
                },
                None => {
                    out.push(self.haystack[i]);
                    proof {
                        assert(s[0] == hay[i as int]);
                        assert(s.skip(1) =~= hay.skip(i + 1));
                        assert(apply_template(s, fv, entries) == seq![hay[i as int]]
                            + apply_template(hay.skip(i + 1), fv, entries));
                        assert(apply_template(hay, fv, entries) == out@ + apply_template(
                            hay.skip(i + 1),
                            fv,
                            entries,
                        ));
                    }
                    i = i + 1;
                },
            }
        }
        proof {
            assert(hay.skip(hay.len() as int) =~= Seq::<char>::empty());
            assert(apply_template(Seq::<char>::empty(), fv, entries) == Seq::<char>::empty());
            assert(apply_template(hay, fv, entries) =~= out@);
        }
        if length < out.len() {
            out.truncate(length);
            proof {
                assert(out@ =~= truncated(apply_template(hay, fv, entries), length as int));
            }
        } else {
            proof {
                assert(out@ =~= truncated(apply_template(hay, fv, entries), length as int));
            }
        }
        chars_to_string(&out)
    }
}

/// The placeholder text of field `f` as characters.
fn placeholder_chars(f: &str) -> (p: Vec<char>)
    ensures
        p@ == placeholder(f@),
{
    let mut p: Vec<char> = Vec::new();
    p.push('{');
    let mut body = str_to_chars(f);
    p.append(&mut body);
    p.push('}');
    proof {
        assert(p@ =~= placeholder(f@));
    }
    p
}

/// A pattern occurs at position `i` of `hay` exactly when it is a prefix of
/// the suffix of `hay` that starts at `i`.
proof fn lemma_prefix_skip(hay: Seq<char>, pat: Seq<char>, i: int)
    requires
        0 <= i <= hay.len(),
    ensures
        occurs_at(hay, pat, i) <==> pat.is_prefix_of(hay.skip(i)),
{
    if i + pat.len() <= hay.len() {
        assert(hay.skip(i).subrange(0, pat.len() as int) =~= hay.subrange(i, i + pat.len()));
    }
}

/// Returns a list of supported fields and their respective type.
pub fn formatting_help() -> (r: &'static str)
    ensures
        r@ == formatting_help_text(),
{
    "allow_live_comments: bool\nauthor: string\nauthor_flair_text: string\nauthor_fullname: string\nauthor_patreon_flair: bool\nauthor_premium: bool\ncan_mod_post: bool\ncontest_mode: bool\ncreated_utc: integer\ncrosspost_parent: string\ndomain: string\nfull_link: string\nid: string\nis_crosspostable: bool\nis_meta: bool\nis_original_content: bool\nis_reddit_media_domain: bool\nis_robot_indexable: bool\nis_self: bool\nis_video: bool\nlink_flair_background_color: string\nlink_flair_text_color: string\nlink_flair_text: string\nlink_flair_type: string\nlocked: bool\nmedia_only: bool\nno_follow: bool\nnum_comments: integer\nnum_crossposts: integer\nover_18: bool\nparent_whitelist_status: string\npermalink: string\npinned: bool\npost_hint: string\npwls: integer\nremoved_by_category: string\nretrieved_on: integer\nscore: integer\nselftext: string\nsend_replies: bool\nspoiler: bool\nstickied: bool\nsubreddit: string\nsubreddit_id: string\nsubreddit_subscribers: integer\nsubreddit_type: string\nthumbnail: string\ntitle: string\ntotal_awards_received: integer\nurl: string\nwhitelist_status: string\nwls: integer\n"
}

/// The text listing the supported fields and their types.
pub open spec fn formatting_help_text() -> Seq<char> {
    "allow_live_comments: bool\nauthor: string\nauthor_flair_text: string\nauthor_fullname: string\nauthor_patreon_flair: bool\nauthor_premium: bool\ncan_mod_post: bool\ncontest_mode: bool\ncreated_utc: integer\ncrosspost_parent: string\ndomain: string\nfull_link: string\nid: string\nis_crosspostable: bool\nis_meta: bool\nis_original_content: bool\nis_reddit_media_domain: bool\nis_robot_indexable: bool\nis_self: bool\nis_video: bool\nlink_flair_background_color: string\nlink_flair_text_color: string\nlink_flair_text: string\nlink_flair_type: string\nlocked: bool\nmedia_only: bool\nno_follow: bool\nnum_comments: integer\nnum_crossposts: integer\nover_18: bool\nparent_whitelist_status: string\npermalink: string\npinned: bool\npost_hint: string\npwls: integer\nremoved_by_category: string\nretrieved_on: integer\nscore: integer\nselftext: string\nsend_replies: bool\nspoiler: bool\nstickied: bool\nsubreddit: string\nsubreddit_id: string\nsubreddit_subscribers: integer\nsubreddit_type: string\nthumbnail: string\ntitle: string\ntotal_awards_received: integer\nurl: string\nwhitelist_status: string\nwls: integer\n"@
}

} // verus!
