//! Text: comparing, trimming, splitting and joining.

use vstd::prelude::*;

verus! {

/// Whether a character has the Unicode property White_Space.
pub open spec fn is_white_space(c: char) -> bool {
    let code = c as u32;
    ||| 9 <= code <= 13
    ||| code == 0x20 || code == 0x85 || code == 0xA0 || code == 0x1680
    ||| 0x2000 <= code <= 0x200A
    ||| code == 0x2028 || code == 0x2029 || code == 0x202F || code == 0x205F || code == 0x3000
}

/// `char::is_whitespace` says whether a character has the Unicode property White_Space, which is
/// that of 25 characters.
pub assume_specification[ char::is_whitespace ](c: char) -> (white: bool)
    ensures
        white == is_white_space(c),
;

/// Whether two texts are the same.
pub fn same_text(a: &str, b: &str) -> (same: bool)
    ensures
        same == (a@ == b@),
{
    a.to_owned() == b.to_owned()
}

/// Whether two optional texts are the same.
pub fn same_optional_text(a: &Option<String>, b: &Option<String>) -> (same: bool)
    ensures
        same == (optional_text(*a) == optional_text(*b)),
{
    match (a, b) {
        (Some(x), Some(y)) => *x == *y,
        (None, None) => true,
        _ => false,
    }
}

/// The contents of an optional text.
pub open spec fn optional_text(text: Option<String>) -> Option<Seq<char>> {
    match text {
        Some(text) => Some(text@),
        None => None,
    }
}

/// The contents of a list of texts.
pub open spec fn texts(list: Seq<String>) -> Seq<Seq<char>> {
    Seq::new(list.len(), |i: int| list[i]@)
}

/// A copy of an optional text.
pub fn copy_optional_text(text: &Option<String>) -> (copy: Option<String>)
    ensures
        optional_text(copy) == optional_text(*text),
{
    match text {
        Some(text) => Some(text.clone()),
        None => None,
    }
}

/// A text without the white space at its start.
pub open spec fn trimmed_start(text: Seq<char>) -> Seq<char>
    decreases text.len(),
{
    if text.len() > 0 && is_white_space(text[0]) {
        trimmed_start(text.subrange(1, text.len() as int))
    } else {
        text
    }
}

/// A text without the white space at its end.
pub open spec fn trimmed_end(text: Seq<char>) -> Seq<char>
    decreases text.len(),
{
    if text.len() > 0 && is_white_space(text.last()) {
        trimmed_end(text.drop_last())
    } else {
        text
    }
}

/// A text without the white space around it.
pub open spec fn trimmed(text: Seq<char>) -> Seq<char> {
    trimmed_end(trimmed_start(text))
}

/// A text without the white space around it.
pub fn trim(text: &str) -> (result: &str)
    ensures
        result@ == trimmed(text@),
{
    let length: usize = text.unicode_len();
    let mut start: usize = 0;
    assert(text@.subrange(0, length as int) =~= text@);
    while start < length && text.get_char(start).is_whitespace()
        invariant
            start <= length == text@.len(),
            trimmed_start(text@) == trimmed_start(text@.subrange(start as int, length as int)),
        decreases length - start,
    {
        let ghost rest = text@.subrange(start as int, length as int);
        assert(rest.subrange(1, rest.len() as int) =~= text@.subrange(start + 1, length as int));
        start = start + 1;
    }
    let mut end: usize = length;
    while end > start && text.get_char(end - 1).is_whitespace()
        invariant
            start <= end <= length == text@.len(),
            trimmed(text@) == trimmed_end(text@.subrange(start as int, end as int)),
        decreases end,
    {
        let ghost rest = text@.subrange(start as int, end as int);
        assert(rest.drop_last() =~= text@.subrange(start as int, end - 1));
        end = end - 1;
    }
    text.substring_char(start, end)
}

/// Trimming leaves no white space at either end.
pub proof fn trimmed_text_has_no_white_space_around_it(text: Seq<char>)
    ensures
        trimmed(text).len() > 0 ==> !is_white_space(trimmed(text)[0]) && !is_white_space(
            trimmed(text).last(),
        ),
{
    lemma_trimmed_start(text);
    lemma_trimmed_end(trimmed_start(text));
}

/// A text without white space at either end is what trimming it gives.
pub proof fn trimming_keeps_trimmed_text(text: Seq<char>)
    requires
        text.len() > 0 ==> !is_white_space(text[0]) && !is_white_space(text.last()),
    ensures
        trimmed(text) == text,
{
}

proof fn lemma_trimmed_start(text: Seq<char>)
    ensures
        trimmed_start(text).len() > 0 ==> !is_white_space(trimmed_start(text)[0]),
    decreases text.len(),
{
    if text.len() > 0 && is_white_space(text[0]) {
        lemma_trimmed_start(text.subrange(1, text.len() as int));
    }
}

proof fn lemma_trimmed_end(text: Seq<char>)
    ensures
        trimmed_end(text).len() > 0 ==> !is_white_space(trimmed_end(text).last()),
        trimmed_end(text).len() > 0 ==> trimmed_end(text)[0] == text[0],
    decreases text.len(),
{
    if text.len() > 0 && is_white_space(text.last()) {
        lemma_trimmed_end(text.drop_last());
    }
}

/// The parts of a text with a separator between them.
pub open spec fn joined(parts: Seq<Seq<char>>, separator: Seq<char>) -> Seq<char>
    decreases parts.len(),
{
    if parts.len() == 0 {
        Seq::empty()
    } else if parts.len() == 1 {
        parts[0]
    } else {
        joined(parts.drop_last(), separator) + separator + parts.last()
    }
}

/// Whether a part stands at a position of a text.
pub open spec fn stands_at(text: Seq<char>, part: Seq<char>, start: int) -> bool {
    &&& 0 <= start
    &&& start + part.len() <= text.len()
    &&& text.subrange(start, start + part.len()) == part
}

/// Whether a part stands somewhere in a text.
pub open spec fn holds_text(text: Seq<char>, part: Seq<char>) -> bool {
    exists|start: int| #[trigger] stands_at(text, part, start)
}

/// A joined text holds every part.
pub proof fn joined_text_holds_every_part(parts: Seq<Seq<char>>, separator: Seq<char>, i: int)
    requires
        0 <= i < parts.len(),
    ensures
        holds_text(joined(parts, separator), parts[i]),
    decreases parts.len(),
{
    let text = joined(parts, separator);
    let part = parts[i];
    if parts.len() == 1 {
        assert(text.subrange(0, part.len() as int) =~= part);
        assert(stands_at(text, part, 0));
    } else if i == parts.len() - 1 {
        let start = text.len() - part.len();
        assert(text.subrange(start, start + part.len()) =~= part);
        assert(stands_at(text, part, start));
    } else {
        let front = parts.drop_last();
        joined_text_holds_every_part(front, separator, i);
        let shorter = joined(front, separator);
        let start = choose|start: int| #[trigger] stands_at(shorter, front[i], start);
        assert(text.subrange(start, start + part.len()) =~= shorter.subrange(
            start,
            start + part.len(),
        ));
        assert(stands_at(text, part, start));
    }
}

/// The parts of a text with a separator between them.
pub fn join(parts: &Vec<String>, separator: &str) -> (text: String)
    ensures
        text@ == joined(texts(parts@), separator@),
{
    let mut text: String = String::new();
    let mut at: usize = 0;
    assert(texts(parts@).take(0).len() == 0);
    while at < parts.len()
        invariant
            at <= parts@.len(),
            text@ == joined(texts(parts@).take(at as int), separator@),
        decreases parts@.len() - at,
    {
        let ghost longer = texts(parts@).take(at + 1);
        assert(longer.drop_last() =~= texts(parts@).take(at as int));
        assert(longer.last() == parts@[at as int]@);
        if at > 0 {
            text.append(separator);
        }
        text.append(parts[at].as_str());
        if at == 0 {
            assert(text@ =~= parts@[0]@);
        }
        at = at + 1;
    }
    assert(texts(parts@).take(at as int) =~= texts(parts@));
    text
}

/// The position of the first `c` from `from` on, or the length of the text.
pub open spec fn first_position(text: Seq<char>, c: char, from: int) -> int
    decreases text.len() - from,
{
    if from >= text.len() || text[from] == c {
        from
    } else {
        first_position(text, c, from + 1)
    }
}

/// The position of the first `c` from `from` on, or the length of the text.
pub fn find_char(text: &str, c: char, from: usize) -> (position: usize)
    requires
        from <= text@.len(),
    ensures
        position == first_position(text@, c, from as int),
        from <= position <= text@.len(),
        position < text@.len() ==> text@[position as int] == c,
{
    let length: usize = text.unicode_len();
    let mut position: usize = from;
    while position < length && text.get_char(position) != c
        invariant
            from <= position <= length == text@.len(),
            first_position(text@, c, from as int) == first_position(text@, c, position as int),
        decreases length - position,
    {
        position = position + 1;
    }
    position
}

/// The position of the last `c` before `end`, or -1.
pub open spec fn last_position(text: Seq<char>, c: char, end: int) -> int
    decreases end,
{
    if end <= 0 {
        -1
    } else if text[end - 1] == c {
        end - 1
    } else {
        last_position(text, c, end - 1)
    }
}

/// The position of the last `c`, if there is one.
pub fn find_last_char(text: &str, c: char) -> (position: Option<usize>)
    ensures
        match position {
            Some(found) => found == last_position(text@, c, text@.len() as int) && found
                < text@.len(),
            None => last_position(text@, c, text@.len() as int) == -1,
        },
{
    let mut end: usize = text.unicode_len();
    while end > 0
        invariant
            end <= text@.len(),
            last_position(text@, c, text@.len() as int) == last_position(text@, c, end as int),
        decreases end,
    {
        if text.get_char(end - 1) == c {
            return Some(end - 1);
        }
        end = end - 1;
    }
    None
}

/// Whether a text comes before another, or is the same, when their characters are compared from
/// the start on.
pub open spec fn text_le(a: Seq<char>, b: Seq<char>) -> bool
    decreases a.len(),
{
    if a.len() == 0 {
        true
    } else if b.len() == 0 {
        false
    } else if a[0] != b[0] {
        (a[0] as u32) < b[0] as u32
    } else {
        text_le(a.subrange(1, a.len() as int), b.subrange(1, b.len() as int))
    }
}

/// The order of texts is total.
pub proof fn text_order_is_total(a: Seq<char>, b: Seq<char>)
    ensures
        text_le(a, b) || text_le(b, a),
        text_le(a, b) && text_le(b, a) ==> a == b,
    decreases a.len(),
{
    if a.len() > 0 && b.len() > 0 && a[0] != b[0] {
        vstd::utf8::char_u32_cast(a[0], a[0] as u32);
        vstd::utf8::char_u32_cast(b[0], b[0] as u32);
    }
    if a.len() > 0 && b.len() > 0 && a[0] == b[0] {
        let rest_a = a.subrange(1, a.len() as int);
        let rest_b = b.subrange(1, b.len() as int);
        text_order_is_total(rest_a, rest_b);
        if rest_a == rest_b {
            assert(a =~= seq![a[0]] + rest_a);
            assert(b =~= seq![b[0]] + rest_b);
        }
    } else if a.len() == 0 && b.len() == 0 {
        assert(a =~= b);
    }
}

/// The order of texts carries over.
pub proof fn text_order_is_transitive(a: Seq<char>, b: Seq<char>, c: Seq<char>)
    requires
        text_le(a, b),
        text_le(b, c),
    ensures
        text_le(a, c),
    decreases a.len(),
{
    if a.len() > 0 && b.len() > 0 && c.len() > 0 && a[0] == b[0] && b[0] == c[0] {
        text_order_is_transitive(
            a.subrange(1, a.len() as int),
            b.subrange(1, b.len() as int),
            c.subrange(1, c.len() as int),
        );
    }
}

/// Whether texts come in ascending order, none of them twice.
pub open spec fn is_ascending(list: Seq<Seq<char>>) -> bool {
    forall|i: int, j: int|
        #![trigger list[i], list[j]]
        0 <= i < j < list.len() ==> list[i] != list[j] && text_le(list[i], list[j])
}

/// Putting a text in front of the first that is not less keeps the order.
proof fn lemma_put_in_place(list: Seq<Seq<char>>, place: int, text: Seq<char>)
    requires
        is_ascending(list),
        0 <= place <= list.len(),
        forall|i: int| 0 <= i < place ==> !text_le(text, #[trigger] list[i]),
        place < list.len() ==> text_le(text, list[place]) && text != list[place],
    ensures
        is_ascending(list.insert(place, text)),
        forall|other: Seq<char>|
            #[trigger] list.insert(place, text).contains(other) <==> list.contains(other) || other
                == text,
{
    let longer = list.insert(place, text);
    assert forall|i: int, j: int|
        #![trigger longer[i], longer[j]]
        0 <= i < j < longer.len() implies longer[i] != longer[j] && text_le(
        longer[i],
        longer[j],
    ) by {
        if j == place {
            text_order_is_total(text, list[i]);
        } else if i == place {
            if j - 1 > place {
                text_order_is_transitive(text, list[place], list[j - 1]);
                text_order_is_total(text, list[place]);
            }
        } else if i < place && j > place {
            assert(longer[j] == list[j - 1]);
        }
    }
    assert forall|other: Seq<char>| #[trigger]
        longer.contains(other) <==> list.contains(other) || other == text by {
        if list.contains(other) {
            let i = choose|i: int| 0 <= i < list.len() && list[i] == other;
            if i < place {
                assert(longer[i] == other);
            } else {
                assert(longer[i + 1] == other);
            }
        }
        if other == text {
            assert(longer[place] == other);
        }
        if longer.contains(other) && other != text {
            let i = choose|i: int| 0 <= i < longer.len() && longer[i] == other;
            if i < place {
                assert(list[i] == other);
            } else {
                assert(list[i - 1] == other);
            }
        }
    }
}

/// The same texts in ascending order, none of them twice.
pub fn ascending_texts(list: &Vec<String>) -> (sorted: Vec<String>)
    ensures
        is_ascending(texts(sorted@)),
        forall|text: Seq<char>| #[trigger]
            texts(sorted@).contains(text) <==> texts(list@).contains(text),
{
    let mut sorted: Vec<String> = Vec::new();
    let mut at: usize = 0;
    while at < list.len()
        invariant
            at <= list@.len(),
            is_ascending(texts(sorted@)),
            forall|text: Seq<char>| #[trigger]
                texts(sorted@).contains(text) <==> texts(list@).take(at as int).contains(text),
        decreases list@.len() - at,
    {
        let text: &str = list[at].as_str();
        let ghost ordered = texts(sorted@);
        let mut place: usize = 0;
        while place < sorted.len() && !text_at_most(text, sorted[place].as_str())
            invariant
                place <= sorted@.len(),
                ordered == texts(sorted@),
                forall|i: int| 0 <= i < place ==> !text_le(text@, #[trigger] ordered[i]),
            decreases sorted@.len() - place,
        {
            assert(ordered[place as int] == sorted@[place as int]@);
            place = place + 1;
        }
        let ghost taken = texts(list@).take(at as int);
        let ghost longer = texts(list@).take(at + 1);
        proof {
            assert(texts(list@)[at as int] == text@);
            assert(longer =~= taken.push(text@));
            assert forall|other: Seq<char>| #[trigger]
                longer.contains(other) <==> taken.contains(other) || other == text@ by {
                if taken.contains(other) {
                    let i = choose|i: int| 0 <= i < taken.len() && taken[i] == other;
                    assert(longer[i] == other);
                }
                if other == text@ {
                    assert(longer[at as int] == other);
                }
            }
        }
        if place < sorted.len() && same_text(text, sorted[place].as_str()) {
            assert(ordered[place as int] == text@);
            assert(ordered.contains(text@));
        } else {
            proof {
                if place < sorted@.len() {
                    assert(ordered[place as int] == sorted@[place as int]@);
                }
                lemma_put_in_place(ordered, place as int, text@);
            }
            let copy: String = text.to_owned();
            sorted.insert(place, copy);
            assert(texts(sorted@) =~= ordered.insert(place as int, text@));
        }
        at = at + 1;
    }
    assert(texts(list@).take(at as int) =~= texts(list@));
    sorted
}

/// Whether a text comes before another or is the same.
pub fn text_at_most(a: &str, b: &str) -> (at_most: bool)
    ensures
        at_most == text_le(a@, b@),
{
    let length_a: usize = a.unicode_len();
    let length_b: usize = b.unicode_len();
    let mut at: usize = 0;
    assert(a@.subrange(0, length_a as int) =~= a@);
    assert(b@.subrange(0, length_b as int) =~= b@);
    while at < length_a && at < length_b
        invariant
            at <= length_a == a@.len(),
            at <= length_b == b@.len(),
            text_le(a@, b@) == text_le(
                a@.subrange(at as int, length_a as int),
                b@.subrange(at as int, length_b as int),
            ),
        decreases length_a - at,
    {
        let x: char = a.get_char(at);
        let y: char = b.get_char(at);
        if x != y {
            return (x as u32) < (y as u32);
        }
        let ghost rest_a = a@.subrange(at as int, length_a as int);
        let ghost rest_b = b@.subrange(at as int, length_b as int);
        assert(rest_a.subrange(1, rest_a.len() as int) =~= a@.subrange(at + 1, length_a as int));
        assert(rest_b.subrange(1, rest_b.len() as int) =~= b@.subrange(at + 1, length_b as int));
        at = at + 1;
    }
    at == length_a
}

/// A digit as text.
pub open spec fn digit_text(digit: nat) -> Seq<char> {
    if digit == 0 {
        "0"@
    } else if digit == 1 {
        "1"@
    } else if digit == 2 {
        "2"@
    } else if digit == 3 {
        "3"@
    } else if digit == 4 {
        "4"@
    } else if digit == 5 {
        "5"@
    } else if digit == 6 {
        "6"@
    } else if digit == 7 {
        "7"@
    } else if digit == 8 {
        "8"@
    } else {
        "9"@
    }
}

/// A number in decimal.
pub open spec fn decimal_digits(number: nat) -> Seq<char>
    decreases number,
{
    if number < 10 {
        digit_text(number)
    } else {
        decimal_digits(number / 10) + digit_text(number % 10)
    }
}

/// A number in decimal.
pub fn decimal_text(number: u64) -> (text: String)
    ensures
        text@ == decimal_digits(number as nat),
    decreases number,
{
    let digit: &str = match number % 10 {
        0 => "0",
        1 => "1",
        2 => "2",
        3 => "3",
        4 => "4",
        5 => "5",
        6 => "6",
        7 => "7",
        8 => "8",
        _ => "9",
    };
    if number < 10 {
        digit.to_owned()
    } else {
        let mut text: String = decimal_text(number / 10);
        text.append(digit);
        text
    }
}

/// Trimming takes white space from both ends and nothing else: what stands between the first and the
/// last character that is none is kept.
pub proof fn trimming_takes_white_space_from_the_ends(text: &str, result: &str) -> (range: (
    int,
    int,
))
    requires
        call_ensures(trim, (text,), result),
    ensures
        0 <= range.0 <= range.1 <= text@.len(),
        result@ == text@.subrange(range.0, range.1),
        forall|i: int| 0 <= i < range.0 ==> is_white_space(#[trigger] text@[i]),
        forall|i: int| range.1 <= i < text@.len() ==> is_white_space(#[trigger] text@[i]),
        result@.len() > 0 ==> !is_white_space(result@[0]) && !is_white_space(result@.last()),
{
    let start = lemma_start_of_trimmed(text@);
    let rest = trimmed_start(text@);
    let end = lemma_end_of_trimmed(rest);
    trimmed_text_has_no_white_space_around_it(text@);
    assert forall|i: int| start + end <= i < text@.len() implies is_white_space(
        #[trigger] text@[i],
    ) by {
        assert(rest[i - start] == text@[i]);
    }
    assert(result@ =~= text@.subrange(start, start + end));
    (start, start + end)
}

proof fn lemma_start_of_trimmed(text: Seq<char>) -> (start: int)
    ensures
        0 <= start <= text.len(),
        trimmed_start(text) == text.subrange(start, text.len() as int),
        forall|i: int| 0 <= i < start ==> is_white_space(#[trigger] text[i]),
    decreases text.len(),
{
    if text.len() > 0 && is_white_space(text[0]) {
        let rest = text.subrange(1, text.len() as int);
        let start = lemma_start_of_trimmed(rest);
        assert(rest.subrange(start, rest.len() as int) =~= text.subrange(
            start + 1,
            text.len() as int,
        ));
        assert forall|i: int| 0 <= i < start + 1 implies is_white_space(#[trigger] text[i]) by {
            if i > 0 {
                assert(rest[i - 1] == text[i]);
            }
        }
        start + 1
    } else {
        assert(text.subrange(0, text.len() as int) =~= text);
        0
    }
}

proof fn lemma_end_of_trimmed(text: Seq<char>) -> (end: int)
    ensures
        0 <= end <= text.len(),
        trimmed_end(text) == text.subrange(0, end),
        forall|i: int| end <= i < text.len() ==> is_white_space(#[trigger] text[i]),
    decreases text.len(),
{
    if text.len() > 0 && is_white_space(text.last()) {
        let rest = text.drop_last();
        let end = lemma_end_of_trimmed(rest);
        assert(rest.subrange(0, end) =~= text.subrange(0, end));
        assert forall|i: int| end <= i < text.len() implies is_white_space(#[trigger] text[i]) by {
            if i < rest.len() {
                assert(rest[i] == text[i]);
            }
        }
        end
    } else {
        assert(text.subrange(0, text.len() as int) =~= text);
        text.len() as int
    }
}

/// The position that is found is that of the first such character from the start on, or the end of
/// the text where there is none.
pub proof fn the_first_such_character_is_found(text: &str, c: char, from: usize, position: usize)
    requires
        from <= text@.len(),
        call_ensures(find_char, (text, c, from), position),
    ensures
        from <= position <= text@.len(),
        position < text@.len() ==> text@[position as int] == c,
        forall|i: int| from <= i < position ==> #[trigger] text@[i] != c,
{
    lemma_first_position(text@, c, from as int);
}

proof fn lemma_first_position(text: Seq<char>, c: char, from: int)
    ensures
        forall|i: int| from <= i < first_position(text, c, from) ==> #[trigger] text[i] != c,
    decreases text.len() - from,
{
    if from < text.len() && text[from] != c {
        lemma_first_position(text, c, from + 1);
    }
}

/// The last position of a character is found wherever the text holds it.
pub proof fn the_last_such_character_is_found(text: &str, c: char, position: Option<usize>)
    requires
        call_ensures(find_last_char, (text, c), position),
    ensures
        position is None <==> !text@.contains(c),
        position matches Some(found) ==> found < text@.len() && text@[found as int] == c
            && forall|i: int| found < i < text@.len() ==> #[trigger] text@[i] != c,
{
    lemma_last_position(text@, c, text@.len() as int);
}

proof fn lemma_last_position(text: Seq<char>, c: char, end: int)
    requires
        0 <= end <= text.len(),
    ensures
        -1 <= last_position(text, c, end) < end || end == 0,
        last_position(text, c, end) >= 0 ==> text[last_position(text, c, end)] == c,
        forall|i: int| last_position(text, c, end) < i < end ==> #[trigger] text[i] != c,
        end == 0 ==> last_position(text, c, end) == -1,
    decreases end,
{
    if end > 0 && text[end - 1] != c {
        lemma_last_position(text, c, end - 1);
    }
}

/// Texts that are joined in two halves, the halves joined by the same separator, are joined as one.
pub proof fn joining_can_be_done_in_halves(
    front: Seq<Seq<char>>,
    back: Seq<Seq<char>>,
    separator: Seq<char>,
)
    requires
        front.len() > 0,
        back.len() > 0,
    ensures
        joined(front + back, separator) == joined(front, separator) + separator + joined(
            back,
            separator,
        ),
        joined(seq![front[0]], separator) == front[0],
    decreases back.len(),
{
    let all = front + back;
    assert(all.last() == back.last());
    if back.len() == 1 {
        assert(all.drop_last() =~= front);
    } else {
        let shorter = back.drop_last();
        joining_can_be_done_in_halves(front, shorter, separator);
        assert(all.drop_last() =~= front + shorter);
        assert(joined(all, separator) =~= joined(front, separator) + separator + joined(
            back,
            separator,
        ));
    }
}

/// Where two texts first differ, the smaller character decides; a text comes before its own
/// continuations.
pub proof fn the_first_difference_decides(
    same: Seq<char>,
    a: Seq<char>,
    b: Seq<char>,
)
    requires
        a.len() > 0 && b.len() > 0 ==> a[0] != b[0],
    ensures
        text_le(same + a, same + b) <==> a.len() == 0 || (b.len() > 0 && (a[0] as u32) < (
        b[0] as u32)),
    decreases same.len(),
{
    if same.len() == 0 {
        assert(same + a =~= a);
        assert(same + b =~= b);
    } else {
        let rest = same.subrange(1, same.len() as int);
        let one = same + a;
        let other = same + b;
        the_first_difference_decides(rest, a, b);
        assert(one.subrange(1, one.len() as int) =~= rest + a);
        assert(other.subrange(1, other.len() as int) =~= rest + b);
        assert(one[0] == same[0] && other[0] == same[0]);
    }
}

/// Decimal digits are written from the highest to the lowest: a number below ten is one digit, and
/// ten times a number with one more is the number with a digit behind it.
pub proof fn decimal_digits_are_written_in_order(number: nat, digit: nat)
    requires
        digit < 10,
    ensures
        decimal_digits(digit).len() == 1,
        decimal_digits(digit)[0] as u32 == 48 + digit,
        number > 0 ==> decimal_digits(10 * number + digit) == decimal_digits(number).push(
            decimal_digits(digit)[0],
        ),
{
    reveal_strlit("0");
    reveal_strlit("1");
    reveal_strlit("2");
    reveal_strlit("3");
    reveal_strlit("4");
    reveal_strlit("5");
    reveal_strlit("6");
    reveal_strlit("7");
    reveal_strlit("8");
    reveal_strlit("9");
    if number > 0 {
        let longer = 10 * number + digit;
        assert(longer / 10 == number);
        assert(longer % 10 == digit);
        assert(decimal_digits(longer) =~= decimal_digits(number).push(decimal_digits(digit)[0]));
    }
}

/// Sorted texts stand in order, each once, and are the texts that were given.
pub proof fn sorted_texts_stand_in_order(list: Vec<String>, sorted: Vec<String>, i: int, j: int)
    requires
        call_ensures(ascending_texts, (&list,), sorted),
        0 <= i < j < sorted@.len(),
    ensures
        text_le(sorted@[i]@, sorted@[j]@),
        sorted@[i]@ != sorted@[j]@,
        exists|k: int| 0 <= k < list@.len() && (#[trigger] list@[k])@ == sorted@[i]@,
{
    let all = texts(sorted@);
    let given = texts(list@);
    assert(all[i] == sorted@[i]@ && all[j] == sorted@[j]@);
    assert(all.contains(all[i]));
    assert(given.contains(all[i]));
    let k = choose|k: int| 0 <= k < given.len() && given[k] == all[i];
    assert(list@[k]@ == sorted@[i]@);
}

} // verus!
