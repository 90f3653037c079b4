//! Encoding of a subscription list as an OPML document: one category
//! outline holding one feed outline per subscription, in input order.

use vstd::prelude::*;
use crate::youtube::{channel_url_of, feed_url_of, YoutubeSubscription};

verus! {

/// Why a subscription list could not be encoded.
#[derive(Debug, PartialEq, Eq, Structural)]
pub enum EncodeError {
    /// A category name, title or channel id holds a character that an
    /// XML 1.0 document cannot carry.
    UnrepresentableCharacter,
}

/// The characters XML 1.0 allows in a document (Rust's `char` excludes
/// surrogates already).
pub open spec fn is_xml_char(c: char) -> bool {
    &&& (c as u32 >= 0x20 || c == '\t' || c == '\n' || c == '\r')
    &&& c != '\u{FFFE}'
    &&& c != '\u{FFFF}'
}

/// Every character of `s` may stand in an XML document.
pub open spec fn is_xml_text(s: Seq<char>) -> bool {
    forall|i: int| 0 <= i < s.len() ==> is_xml_char(#[trigger] s[i])
}

/// The escaped form of one character inside an attribute value.
pub open spec fn escaped_char(c: char) -> Seq<char> {
    if c == '<' {
        "&lt;"@
    } else if c == '>' {
        "&gt;"@
    } else if c == '&' {
        "&amp;"@
    } else if c == '\'' {
        "&apos;"@
    } else if c == '"' {
        "&quot;"@
    } else if c == '\r' {
        "&#13;"@
    } else {
        seq![c]
    }
}

/// `s` with each character replaced by its escaped form.
pub open spec fn xml_escaped(s: Seq<char>) -> Seq<char>
    decreases s.len(),
{
    if s.len() == 0 {
        Seq::empty()
    } else {
        xml_escaped(s.drop_last()) + escaped_char(s.last())
    }
}

/// Relies on quick_xml::escape::escape, which replaces `<`, `>`, `&`, `'`,
/// `"` and `\r` by `&lt;`, `&gt;`, `&amp;`, `&apos;`, `&quot;` and `&#13;`
/// and keeps every other character.
#[verifier::external_body]
fn escape_xml(s: &str) -> (r: String)
    ensures
        r@ == xml_escaped(s@),
{
    quick_xml::escape::escape(s).into_owned()
}

/// An attribute ` name="value"`, with the value escaped.
pub open spec fn attribute(name: Seq<char>, value: Seq<char>) -> Seq<char> {
    " "@ + name + "=\""@ + xml_escaped(value) + "\""@
}

/// The feed outline of one subscription.
pub open spec fn leaf_of(s: YoutubeSubscription) -> Seq<char> {
    "<outline"@ + attribute("text"@, s.title@) + attribute("title"@, s.title@) + attribute(
        "type"@,
        "rss"@,
    ) + attribute("xmlUrl"@, feed_url_of(s.channel@)) + attribute(
        "htmlUrl"@,
        channel_url_of(s.channel@),
    ) + "/>"@
}

/// The feed outlines of `records`, one per record, in order.
pub open spec fn leaves(records: Seq<YoutubeSubscription>) -> Seq<Seq<char>> {
    records.map_values(|s: YoutubeSubscription| leaf_of(s))
}

/// The pieces of `parts` written one after the other.
pub open spec fn joined(parts: Seq<Seq<char>>) -> Seq<char>
    decreases parts.len(),
{
    if parts.len() == 0 {
        Seq::empty()
    } else {
        joined(parts.drop_last()) + parts.last()
    }
}

/// The opening of the document, up to and including the category outline's
/// start tag.
pub open spec fn document_head(category: Seq<char>) -> Seq<char> {
    "<opml version=\"1.1\"><body><outline"@ + attribute("text"@, category) + attribute(
        "title"@,
        category,
    ) + ">"@
}

/// The closing of the document.
pub open spec fn document_tail() -> Seq<char> {
    "</outline></body></opml>"@
}

/// The OPML document for `records` under the category `category`.
pub open spec fn opml_document(category: Seq<char>, records: Seq<YoutubeSubscription>) -> Seq<
    char,
> {
    document_head(category) + joined(leaves(records)) + document_tail()
}

/// Every text that the document for `records` carries may stand in XML.
pub open spec fn encodable(category: Seq<char>, records: Seq<YoutubeSubscription>) -> bool {
    &&& is_xml_text(category)
    &&& forall|i: int| 0 <= i < records.len() ==> record_encodable(#[trigger] records[i])
}

/// The title and the channel id of `s` may stand in XML.
pub open spec fn record_encodable(s: YoutubeSubscription) -> bool {
    is_xml_text(s.title@) && is_xml_text(s.channel@)
}

/// Tests whether every character of `s` may stand in XML.
pub fn is_xml_representable(s: &str) -> (r: bool)
    ensures
        r == is_xml_text(s@),
{
    let n = s.unicode_len();
    let mut i: usize = 0;
    while i < n
        invariant
            n == s@.len(),
            i <= n,
            forall|j: int| 0 <= j < i ==> is_xml_char(#[trigger] s@[j]),
        decreases n - i,
    {
        let c = s.get_char(i);
        let ok = ((c as u32) >= 0x20 || c == '\t' || c == '\n' || c == '\r') && c != '\u{FFFE}'
            && c != '\u{FFFF}';
        if !ok {
            return false;
        }
        i = i + 1;
    }
    true
}

/// Appends ` name="value"` to `out`, escaping the value.
fn push_attribute(out: &mut String, name: &str, value: &str)
    ensures
        final(out)@ == old(out)@ + attribute(name@, value@),
{
    let escaped = escape_xml(value);
    out.append(" ");
    out.append(name);
    out.append("=\"");
    out.append(escaped.as_str());
    out.append("\"");
    proof {
        assert(final(out)@ =~= old(out)@ + attribute(name@, value@));
    }
}

/// Appends the feed outline of `s` to `out`.
fn push_leaf(out: &mut String, s: &YoutubeSubscription)
    ensures
        final(out)@ == old(out)@ + leaf_of(*s),
{
    out.append("<outline");
    push_attribute(out, "text", s.title.as_str());
    push_attribute(out, "title", s.title.as_str());
    push_attribute(out, "type", "rss");
    let feed = s.channel_feed_url();
    push_attribute(out, "xmlUrl", feed.as_str());
    let page = s.channel_url();
    push_attribute(out, "htmlUrl", page.as_str());
    out.append("/>");
    proof {
        assert(final(out)@ =~= old(out)@ + leaf_of(*s));
    }
}

/// Encodes `subscriptions` under the category `category_name` as an OPML
/// document. The records keep their order; none is dropped or merged.
/// Fails exactly when some text to be written holds a character that XML
/// cannot carry.
pub fn convert_to_opml_string(category_name: &str, subscriptions: &[YoutubeSubscription]) -> (r:
    Result<String, EncodeError>)
    ensures
        r is Ok <==> encodable(category_name@, subscriptions@),
        r matches Ok(doc) ==> doc@ == opml_document(category_name@, subscriptions@),
        r matches Err(e) ==> e == EncodeError::UnrepresentableCharacter,
{
    if !is_xml_representable(category_name) {
        return Err(EncodeError::UnrepresentableCharacter);
    }
    let n = subscriptions.len();
    let mut k: usize = 0;
    while k < n
        invariant
            n == subscriptions@.len(),
            k <= n,
            forall|j: int| 0 <= j < k ==> record_encodable(#[trigger] subscriptions@[j]),
        decreases n - k,
    {
        if !is_xml_representable(subscriptions[k].title.as_str())
            || !is_xml_representable(subscriptions[k].channel.as_str()) {
            return Err(EncodeError::UnrepresentableCharacter);
        }
        assert(record_encodable(subscriptions@[k as int]));
        k = k + 1;
    }
    let mut out = String::from_str("<opml version=\"1.1\"><body><outline");
    push_attribute(&mut out, "text", category_name);
    push_attribute(&mut out, "title", category_name);
    out.append(">");
    proof {
        assert(out@ =~= document_head(category_name@) + joined(
            leaves(subscriptions@.take(0)),
        ));
    }
    let mut i: usize = 0;
    while i < n
        invariant
            n == subscriptions@.len(),
            i <= n,
            out@ == document_head(category_name@) + joined(leaves(subscriptions@.take(i as int))),
        decreases n - i,
    {
        push_leaf(&mut out, &subscriptions[i]);
        proof {
            let t = subscriptions@.take(i + 1);
            assert(leaves(t).drop_last() =~= leaves(subscriptions@.take(i as int)));
            assert(leaves(t).last() == leaf_of(subscriptions@[i as int]));
            assert(out@ =~= document_head(category_name@) + joined(leaves(t)));
        }
        i = i + 1;
    }
    out.append("</outline></body></opml>");
    proof {
        assert(subscriptions@.take(n as int) =~= subscriptions@);
    }
    Ok(out)
}

/// The document holds one feed outline per record, and the outlines stand
/// in the records' order: outline `i` is the outline of record `i`.
pub proof fn lemma_one_leaf_per_record(records: Seq<YoutubeSubscription>)
    ensures
        leaves(records).len() == records.len(),
        forall|i: int| 0 <= i < records.len() ==> #[trigger] leaves(records)[i] == leaf_of(records[i]),
{
}

/// The outlines of two record lists written one after the other are the
/// outlines of the joined list: encoding neither sorts, merges nor drops
/// records.
pub proof fn lemma_leaves_of_concat(a: Seq<YoutubeSubscription>, b: Seq<YoutubeSubscription>)
    ensures
        joined(leaves(a + b)) == joined(leaves(a)) + joined(leaves(b)),
    decreases b.len(),
{
    if b.len() == 0 {
        assert(a + b =~= a);
        assert(joined(leaves(b)) =~= Seq::<char>::empty());
        assert(joined(leaves(a)) + joined(leaves(b)) =~= joined(leaves(a)));
    } else {
        let b0 = b.drop_last();
        lemma_leaves_of_concat(a, b0);
        assert(leaves(a + b).drop_last() =~= leaves(a + b0));
        assert(leaves(b).drop_last() =~= leaves(b0));
        assert(leaves(a + b).last() == leaf_of(b.last()));
        assert(joined(leaves(a + b)) =~= joined(leaves(a)) + joined(leaves(b)));
    }
}

} // verus!
