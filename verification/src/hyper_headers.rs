//! Request headers that the engine reads and the framework does not supply.
//!
//! The grammar of a quality-weighted list is hyper's: this module hands the
//! raw lines of a header to hyper's parser and the items of a header to
//! hyper's formatter, and holds the results as plain values.
use crate::precondition::{EntityTag, EntityTagMatch, EntityTagMatchView, EntityTagView};
use crate::preference::QualityItem;
use vstd::prelude::*;
use vstd::utf8::valid_utf8;

verus! {

/// A charset code, such as `UTF-8`, or `*` for any.
pub type Charset = String;

/// The `Accept-Charset` header: the charsets a client accepts in a response,
/// each with its quality.
#[derive(Debug, PartialEq, Eq)]
pub struct AcceptCharset(pub Vec<QualityItem<Charset>>);

impl DeepView for AcceptCharset {
    type V = Seq<QualityItem<Seq<char>>>;

    open spec fn deep_view(&self) -> Seq<QualityItem<Seq<char>>> {
        self.0.deep_view()
    }
}

/// What hyper's parser of comma-delimited lists makes of the raw lines of a
/// header whose items are charsets with qualities: the items as (charset,
/// quality in thousandths), or nothing where a line is not UTF-8.
pub uninterp spec fn comma_delimited_charsets(raw: Seq<Seq<u8>>) -> Option<Seq<(Seq<char>, u16)>>;

/// Every line is valid UTF-8.
pub open spec fn all_utf8(raw: Seq<Seq<u8>>) -> bool {
    forall|k: int| 0 <= k < raw.len() ==> valid_utf8(#[trigger] raw[k])
}

/// What hyper writes behind an item for a quality above 1000, which no
/// header that hyper parsed holds: `; q=0.` and the decimal digits of the
/// number without the zeros at their end.
pub uninterp spec fn wide_quality_suffix(quality: u16) -> Seq<char>;

/// The decimal digit `n` as a character.
pub open spec fn digit(n: int) -> char {
    ((48 + n) as u8) as char
}

/// The thousandths below 1000 as three decimal digits, without the zeros at
/// their end: `5` for 500, `25` for 250, `001` for 1.
pub open spec fn fraction(quality: u16) -> Seq<char> {
    let hundreds = quality as int / 100;
    let tens = quality as int / 10 % 10;
    let ones = quality as int % 10;
    if ones != 0 {
        seq![digit(hundreds), digit(tens), digit(ones)]
    } else if tens != 0 {
        seq![digit(hundreds), digit(tens)]
    } else {
        seq![digit(hundreds)]
    }
}

/// What hyper writes behind an item for its quality: nothing for a quality
/// of 1000, `; q=0` for none, and otherwise `; q=0.` with the thousandths as
/// a decimal fraction, such as `; q=0.5` for 500.
pub open spec fn quality_suffix(quality: u16) -> Seq<char> {
    if quality == 1000 {
        Seq::empty()
    } else if quality == 0 {
        "; q=0"@
    } else if quality < 1000 {
        "; q=0."@ + fraction(quality)
    } else {
        wide_quality_suffix(quality)
    }
}

/// A byte that counts as white space: space, tab, line feed, vertical tab,
/// form feed or carriage return.
pub open spec fn is_blank(b: u8) -> bool {
    b == 0x20 || 0x09 <= b <= 0x0d
}

/// A visible ASCII byte other than `,` and `;`.
pub open spec fn is_plain(b: u8) -> bool {
    0x21 <= b <= 0x7e && b != 0x2c && b != 0x3b
}

/// The first position at or after `i` that holds no white space.
pub open spec fn skip_blanks(line: Seq<u8>, i: int) -> int
    decreases line.len() - i,
{
    if 0 <= i < line.len() && is_blank(line[i]) {
        skip_blanks(line, i + 1)
    } else {
        i
    }
}

/// Behind the `;` at position `i`, after white space, stand two visible
/// bytes of the same item.
pub open spec fn parameter_follows(line: Seq<u8>, i: int) -> bool {
    let j = skip_blanks(line, i + 1);
    j + 1 < line.len() && is_plain(line[j]) && is_plain(line[j + 1])
}

/// From position `j` to the end of the item, which is the next `,` or the
/// end of the line, stands no `;`.
pub open spec fn no_further_parameter(line: Seq<u8>, j: int) -> bool
    decreases line.len() - j,
{
    if j < 0 || j >= line.len() || line[j] == 0x2c {
        true
    } else if line[j] == 0x3b {
        false
    } else {
        no_further_parameter(line, j + 1)
    }
}

/// The last `;` of every item of the line is followed by a parameter of at
/// least two visible bytes.
pub open spec fn line_well_formed(line: Seq<u8>) -> bool {
    forall|i: int|
        0 <= i < line.len() && line[i] == 0x3b && no_further_parameter(line, i + 1)
            ==> #[trigger] parameter_follows(line, i)
}

/// Every line is well formed.  hyper's parser of an item with a quality
/// slices the first two bytes off the text behind the last `;` of the item;
/// on well-formed lines those two bytes are there.
pub open spec fn well_formed(raw: Seq<Seq<u8>>) -> bool {
    forall|k: int| 0 <= k < raw.len() ==> #[trigger] line_well_formed(raw[k])
}

/// The (charset, quality) pairs as items.
pub open spec fn weighted(pairs: Seq<(Seq<char>, u16)>) -> Seq<QualityItem<Seq<char>>> {
    Seq::new(pairs.len(), |i: int| QualityItem { item: pairs[i].0, quality: pairs[i].1 })
}

/// The charsets that a header lists, with their qualities: what hyper's
/// parser makes of well-formed lines, and nothing for other lines.
pub open spec fn listed_charsets(raw: Seq<Seq<u8>>) -> Option<Seq<QualityItem<Seq<char>>>> {
    if well_formed(raw) {
        match comma_delimited_charsets(raw) {
            Some(pairs) => Some(weighted(pairs)),
            None => None,
        }
    } else {
        None
    }
}

/// An item as the header shows it: the charset, then what hyper writes for
/// the quality.
pub open spec fn item_text(item: QualityItem<Seq<char>>) -> Seq<char> {
    item.item + quality_suffix(item.quality)
}

/// The items as the header shows them: each as [`item_text`] has it, with
/// `, ` between one and the next.
pub open spec fn comma_delimited(items: Seq<QualityItem<Seq<char>>>) -> Seq<char>
    decreases items.len(),
{
    if items.len() == 0 {
        Seq::empty()
    } else if items.len() == 1 {
        item_text(items[0])
    } else {
        comma_delimited(items.drop_last()) + ", "@ + item_text(items.last())
    }
}

/// Calls `hyper::header::parsing::from_comma_delimited` for items of type
/// `hyper::header::QualityItem<String>` and hands each item on as a pair.
/// The result is the value that the name [`comma_delimited_charsets`] stands
/// for; there is one exactly when every line is UTF-8, for hyper gives up at
/// the first line that is not and drops the items that it cannot parse.  The
/// lines must be well formed: on other lines hyper's parser of an item may
/// slice out of bounds.
#[verifier::external_body]
fn parse_comma_delimited(raw: &[Vec<u8>]) -> (pairs: Option<Vec<(String, u16)>>)
    requires
        well_formed(raw.deep_view()),
    ensures
        pairs.deep_view() == comma_delimited_charsets(raw.deep_view()),
        pairs is Some <==> all_utf8(raw.deep_view()),
{
    hyper::header::parsing::from_comma_delimited::<hyper::header::QualityItem<String>, Vec<u8>>(raw)
        .ok()
        .map(|items| items.into_iter().map(|q| (q.item, q.quality.0)).collect())
}

/// Formats a `hyper::header::QualityItem` of `item` and `quality` with
/// hyper's `Display`: the item, followed by what hyper's `Display` of
/// `Quality` writes.  That is nothing for 1000 and `; q=0` for 0; every
/// other number is written with three digits at least, the zeros at the end
/// are taken off, and the rest stands behind `; q=0.`.  For a number above
/// 1000 the digits are the value that the name [`wide_quality_suffix`]
/// stands for.
#[verifier::external_body]
fn format_quality_item(item: &str, quality: u16) -> (text: String)
    ensures
        text@ == item@ + quality_suffix(quality),
        quality > 1000 ==> text@ == item@ + wide_quality_suffix(quality),
{
    format!("{}", hyper::header::QualityItem::new(item, hyper::header::Quality(quality)))
}

/// The first position at or after `from` that holds no white space.
fn blanks_end(line: &Vec<u8>, from: usize) -> (j: usize)
    requires
        from <= line.len(),
    ensures
        j == skip_blanks(line@, from as int),
        from <= j <= line.len(),
{
    let mut j: usize = from;
    while j < line.len() && (line[j] == 0x20 || (0x09 <= line[j] && line[j] <= 0x0d))
        invariant
            from <= j <= line.len(),
            skip_blanks(line@, from as int) == skip_blanks(line@, j as int),
        decreases line.len() - j,
    {
        j += 1;
    }
    j
}

/// Whether `b` is a visible ASCII byte other than `,` and `;`.
fn plain(b: u8) -> (r: bool)
    ensures
        r == is_plain(b),
{
    0x21 <= b && b <= 0x7e && b != 0x2c && b != 0x3b
}

/// Whether no `;` stands from position `from` to the end of the item.
fn is_last_parameter(line: &Vec<u8>, from: usize) -> (b: bool)
    requires
        from <= line.len(),
    ensures
        b == no_further_parameter(line@, from as int),
{
    let mut j: usize = from;
    while j < line.len() && line[j] != 0x2c && line[j] != 0x3b
        invariant
            from <= j <= line.len(),
            no_further_parameter(line@, from as int) == no_further_parameter(line@, j as int),
        decreases line.len() - j,
    {
        j += 1;
    }
    j >= line.len() || line[j] == 0x2c
}

/// Whether the last `;` of every item of the line is followed by a
/// parameter of at least two visible bytes.
fn check_line(line: &Vec<u8>) -> (ok: bool)
    ensures
        ok == line_well_formed(line@),
{
    let mut i: usize = 0;
    while i < line.len()
        invariant
            i <= line.len(),
            forall|k: int|
                0 <= k < i && line@[k] == 0x3b && no_further_parameter(line@, k + 1)
                    ==> #[trigger] parameter_follows(line@, k),
        decreases line.len() - i,
    {
        if line[i] == 0x3b && is_last_parameter(line, i + 1) {
            let j = blanks_end(line, i + 1);
            if !(j < line.len() && j + 1 < line.len() && plain(line[j]) && plain(line[j + 1])) {
                assert(!parameter_follows(line@, i as int));
                return false;
            }
        }
        i += 1;
    }
    true
}

/// Whether the raw lines of a header are well formed, so that hyper's
/// parser of quality-weighted items can take them.
pub fn is_well_formed(raw: &[Vec<u8>]) -> (ok: bool)
    ensures
        ok == well_formed(raw.deep_view()),
{
    let mut k: usize = 0;
    while k < raw.len()
        invariant
            k <= raw.len(),
            forall|n: int| 0 <= n < k ==> #[trigger] line_well_formed(raw.deep_view()[n]),
        decreases raw.len() - k,
    {
        assert(raw.deep_view()[k as int] == raw@[k as int]@);
        if !check_line(&raw[k]) {
            return false;
        }
        k += 1;
    }
    true
}

impl AcceptCharset {
    /// The name of the header on the wire.
    pub fn header_name() -> (name: &'static str)
        ensures
            name@ == "Accept-Charset"@,
    {
        "Accept-Charset"
    }

    /// The listed charsets, in the order of the header.
    pub fn deref(&self) -> (items: &Vec<QualityItem<Charset>>)
        ensures
            *items == self.0,
    {
        &self.0
    }

    /// The listed charsets, for changing them in place.
    pub fn deref_mut(&mut self) -> (items: &mut Vec<QualityItem<Charset>>)
        ensures
            *items == old(self).0,
            final(self).0 == *final(items),
    {
        &mut self.0
    }

    /// Parses the raw lines of the header.  Lines that are not well formed,
    /// and lines that are not UTF-8, give nothing; of the items of other
    /// lines, those that hyper can parse are listed in order.
    pub fn parse_header(raw: &[Vec<u8>]) -> (header: Option<AcceptCharset>)
        ensures
            header.deep_view() == listed_charsets(raw.deep_view()),
            header is Some <==> well_formed(raw.deep_view()) && all_utf8(raw.deep_view()),
    {
        if !is_well_formed(raw) {
            return None;
        }
        match parse_comma_delimited(raw) {
            Some(pairs) => Some(AcceptCharset::from_pairs(pairs)),
            None => None,
        }
    }

    /// The header that lists the given (charset, quality) pairs.
    pub fn from_pairs(pairs: Vec<(String, u16)>) -> (header: AcceptCharset)
        ensures
            header.deep_view() == weighted(pairs.deep_view()),
    {
        let mut items: Vec<QualityItem<Charset>> = Vec::new();
        let mut i: usize = 0;
        while i < pairs.len()
            invariant
                i <= pairs.len(),
                items.len() == i,
                forall|k: int|
                    0 <= k < i ==> items@[k].item@ == pairs@[k].0@ && items@[k].quality
                        == pairs@[k].1,
            decreases pairs.len() - i,
        {
            items.push(QualityItem { item: pairs[i].0.clone(), quality: pairs[i].1 });
            i += 1;
        }
        let header = AcceptCharset(items);
        assert(header.deep_view() =~= weighted(pairs.deep_view()));
        header
    }

    /// Formats the header as it goes on the wire: the items in order, each
    /// charset followed by what hyper writes for its quality, with `, `
    /// between one item and the next.
    pub fn fmt_header(&self) -> (text: String)
        ensures
            text@ == comma_delimited(self.deep_view()),
    {
        let mut text = String::new();
        let mut i: usize = 0;
        while i < self.0.len()
            invariant
                i <= self.0.len(),
                text@ == comma_delimited(self.deep_view().take(i as int)),
            decreases self.0.len() - i,
        {
            let ghost before = self.deep_view().take(i as int);
            let ghost after = self.deep_view().take(i + 1);
            if i != 0 {
                text.append(", ");
            }
            let item = format_quality_item(self.0[i].item.as_str(), self.0[i].quality);
            text.append(item.as_str());
            proof {
                assert(after.drop_last() =~= before);
                assert(after.last() == self.deep_view()[i as int]);
                assert(text@ =~= comma_delimited(after));
            }
            i += 1;
        }
        proof {
            assert(self.deep_view().take(self.0.len() as int) =~= self.deep_view());
        }
        text
    }
}

/// What hyper's parser of comma-delimited lists makes of the raw lines of a
/// header whose items are entity tags: the tags as (weak, text), or nothing
/// where a line is not UTF-8.
pub uninterp spec fn comma_delimited_entity_tags(raw: Seq<Seq<u8>>) -> Option<
    Seq<(bool, Seq<char>)>,
>;

/// A visible ASCII byte other than `,`.
pub open spec fn is_visible(b: u8) -> bool {
    0x21 <= b <= 0x7e && b != 0x2c
}

/// The `"` at position `i` does not stand alone: a visible byte follows it,
/// or a visible byte precedes it that is not the `/` of a `W/`.
pub open spec fn quote_attached(line: Seq<u8>, i: int) -> bool {
    ||| i + 1 < line.len() && is_visible(line[i + 1])
    ||| i >= 1 && is_visible(line[i - 1]) && !(i >= 2 && line[i - 1] == 0x2f && line[i - 2]
        == 0x57)
}

/// No `"` of the line stands alone.
pub open spec fn quotes_attached(line: Seq<u8>) -> bool {
    forall|i: int| 0 <= i < line.len() && line[i] == 0x22 ==> #[trigger] quote_attached(line, i)
}

/// No `"` of any line stands alone.  hyper's parser of an entity tag slices
/// the text between the quotes; of an item that is only `"`, or only `W/"`,
/// there is no such text to slice.
pub open spec fn quotes_well_placed(raw: Seq<Seq<u8>>) -> bool {
    forall|k: int| 0 <= k < raw.len() ==> #[trigger] quotes_attached(raw[k])
}

/// The line is `*`, with nothing but white space around it.
pub open spec fn is_star_line(line: Seq<u8>) -> bool {
    let j = skip_blanks(line, 0);
    j < line.len() && line[j] == 0x2a && skip_blanks(line, j + 1) == line.len()
}

/// The header is the single line `*`.
pub open spec fn names_star(raw: Seq<Seq<u8>>) -> bool {
    raw.len() == 1 && is_star_line(raw[0])
}

/// The (weak, text) pairs as entity tags.
pub open spec fn tagged(pairs: Seq<(bool, Seq<char>)>) -> Seq<EntityTagView> {
    Seq::new(pairs.len(), |i: int| EntityTagView { weak: pairs[i].0, tag: pairs[i].1 })
}

/// What an `If-Match` or `If-None-Match` header says: `*` is any entity;
/// other lines list the entity tags that hyper's parser finds in them,
/// provided that no `"` stands alone; anything else says nothing.
pub open spec fn listed_entity_tags(raw: Seq<Seq<u8>>) -> Option<EntityTagMatchView> {
    if names_star(raw) {
        Some(EntityTagMatchView::Any)
    } else if quotes_well_placed(raw) {
        match comma_delimited_entity_tags(raw) {
            Some(pairs) => Some(EntityTagMatchView::Tags(tagged(pairs))),
            None => None,
        }
    } else {
        None
    }
}

/// An entity tag as a header shows it: `W/` if it is weak, then its text
/// between double quotes.
pub open spec fn entity_tag_text(tag: EntityTagView) -> Seq<char> {
    if tag.weak {
        "W/"@ + "\""@ + tag.tag + "\""@
    } else {
        "\""@ + tag.tag + "\""@
    }
}

/// The entity tags as a header shows them, with `, ` between one and the
/// next.
pub open spec fn entity_tags_text(tags: Seq<EntityTagView>) -> Seq<char>
    decreases tags.len(),
{
    if tags.len() == 0 {
        Seq::empty()
    } else if tags.len() == 1 {
        entity_tag_text(tags[0])
    } else {
        entity_tags_text(tags.drop_last()) + ", "@ + entity_tag_text(tags.last())
    }
}

/// An `If-Match` or `If-None-Match` header as it goes on the wire: `*`, or
/// the listed tags.
pub open spec fn entity_tag_match_text(header: EntityTagMatchView) -> Seq<char> {
    match header {
        EntityTagMatchView::Any => "*"@,
        EntityTagMatchView::Tags(tags) => entity_tags_text(tags),
    }
}

/// Calls `hyper::header::parsing::from_comma_delimited` for items of type
/// `hyper::header::EntityTag` and hands each tag on as a pair of its flag
/// and its text.  The result is the value that the name
/// [`comma_delimited_entity_tags`] stands for; there is one exactly when
/// every line is UTF-8.  No `"` may stand alone: of an item that is only
/// `"`, or only `W/"`, hyper's parser slices out of bounds.
#[verifier::external_body]
fn parse_entity_tags(raw: &[Vec<u8>]) -> (pairs: Option<Vec<(bool, String)>>)
    requires
        quotes_well_placed(raw.deep_view()),
    ensures
        pairs.deep_view() == comma_delimited_entity_tags(raw.deep_view()),
        pairs is Some <==> all_utf8(raw.deep_view()),
{
    hyper::header::parsing::from_comma_delimited::<hyper::header::EntityTag, Vec<u8>>(raw)
        .ok()
        .map(|tags| tags.into_iter().map(|t| (t.weak, t.tag().to_owned())).collect())
}

/// Whether `b` is a visible ASCII byte other than `,`.
fn visible(b: u8) -> (r: bool)
    ensures
        r == is_visible(b),
{
    0x21 <= b && b <= 0x7e && b != 0x2c
}

/// Whether no `"` of the line stands alone.
fn check_quotes(line: &Vec<u8>) -> (ok: bool)
    ensures
        ok == quotes_attached(line@),
{
    let mut i: usize = 0;
    while i < line.len()
        invariant
            i <= line.len(),
            forall|k: int| 0 <= k < i && line@[k] == 0x22 ==> #[trigger] quote_attached(line@, k),
        decreases line.len() - i,
    {
        if line[i] == 0x22 {
            let followed = i + 1 < line.len() && visible(line[i + 1]);
            let preceded = i >= 1 && visible(line[i - 1]) && !(i >= 2 && line[i - 1] == 0x2f
                && line[i - 2] == 0x57);
            if !(followed || preceded) {
                assert(!quote_attached(line@, i as int));
                return false;
            }
        }
        i += 1;
    }
    true
}

/// Whether no `"` of any line stands alone, so that hyper's parser of
/// entity tags can take the lines.
pub fn are_quotes_well_placed(raw: &[Vec<u8>]) -> (ok: bool)
    ensures
        ok == quotes_well_placed(raw.deep_view()),
{
    let mut k: usize = 0;
    while k < raw.len()
        invariant
            k <= raw.len(),
            forall|n: int| 0 <= n < k ==> #[trigger] quotes_attached(raw.deep_view()[n]),
        decreases raw.len() - k,
    {
        assert(raw.deep_view()[k as int] == raw@[k as int]@);
        if !check_quotes(&raw[k]) {
            return false;
        }
        k += 1;
    }
    true
}

/// Whether the header is the single line `*`, white space around it
/// allowed.
pub fn is_star(raw: &[Vec<u8>]) -> (b: bool)
    ensures
        b == names_star(raw.deep_view()),
{
    if raw.len() != 1 {
        return false;
    }
    assert(raw.deep_view()[0] == raw@[0]@);
    let line = &raw[0];
    let j = blanks_end(line, 0);
    if j < line.len() && line[j] == 0x2a {
        blanks_end(line, j + 1) == line.len()
    } else {
        false
    }
}

impl EntityTag {
    /// Formats the tag as a header shows it: `W/` if it is weak, then its
    /// text between double quotes.
    pub fn fmt_header(&self) -> (text: String)
        ensures
            text@ == entity_tag_text(self.deep_view()),
    {
        let mut text = String::new();
        if self.weak {
            text.append("W/");
        }
        text.append("\"");
        text.append(self.tag.as_str());
        text.append("\"");
        assert(text@ =~= entity_tag_text(self.deep_view()));
        text
    }
}

impl EntityTagMatch {
    /// Parses the raw lines of an `If-Match` or `If-None-Match` header.  The
    /// single line `*`, white space around it allowed, is any entity.  Of
    /// other lines the entity tags that hyper can parse are listed in order;
    /// lines in which a `"` stands alone, and lines that are not UTF-8, give
    /// nothing.
    pub fn parse_header(raw: &[Vec<u8>]) -> (header: Option<EntityTagMatch>)
        ensures
            header.deep_view() == listed_entity_tags(raw.deep_view()),
            header is Some <==> names_star(raw.deep_view()) || (quotes_well_placed(
                raw.deep_view(),
            ) && all_utf8(raw.deep_view())),
    {
        if is_star(raw) {
            return Some(EntityTagMatch::Any);
        }
        if !are_quotes_well_placed(raw) {
            return None;
        }
        match parse_entity_tags(raw) {
            Some(pairs) => {
                let mut tags: Vec<EntityTag> = Vec::new();
                let mut i: usize = 0;
                while i < pairs.len()
                    invariant
                        i <= pairs.len(),
                        tags.len() == i,
                        forall|k: int|
                            0 <= k < i ==> tags@[k].weak == pairs@[k].0 && tags@[k].tag@
                                == pairs@[k].1@,
                    decreases pairs.len() - i,
                {
                    tags.push(EntityTag { weak: pairs[i].0, tag: pairs[i].1.clone() });
                    i += 1;
                }
                let header = EntityTagMatch::Tags(tags);
                assert(header.deep_view()->Tags_0 =~= tagged(pairs.deep_view()));
                Some(header)
            },
            None => None,
        }
    }

    /// Formats the header as it goes on the wire: `*` for any entity, else
    /// the tags in order with `, ` between one and the next.
    pub fn fmt_header(&self) -> (text: String)
        ensures
            text@ == entity_tag_match_text(self.deep_view()),
    {
        match self {
            EntityTagMatch::Any => "*".to_owned(),
            EntityTagMatch::Tags(tags) => {
                let mut text = String::new();
                let mut i: usize = 0;
                while i < tags.len()
                    invariant
                        i <= tags.len(),
                        text@ == entity_tags_text(tags.deep_view().take(i as int)),
                    decreases tags.len() - i,
                {
                    let ghost before = tags.deep_view().take(i as int);
                    let ghost after = tags.deep_view().take(i + 1);
                    if i != 0 {
                        text.append(", ");
                    }
                    let tag = tags[i].fmt_header();
                    text.append(tag.as_str());
                    proof {
                        assert(after.drop_last() =~= before);
                        assert(after.last() == tags.deep_view()[i as int]);
                        assert(text@ =~= entity_tags_text(after));
                    }
                    i += 1;
                }
                proof {
                    assert(tags.deep_view().take(tags.len() as int) =~= tags.deep_view());
                }
                text
            },
        }
    }
}

} // verus!
