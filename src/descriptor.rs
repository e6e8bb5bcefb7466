//! Reading the machine descriptor: the instance's identifier is the text of
//! its first `name` element, and the whole document is its configuration.
use vstd::prelude::*;
use quick_xml::events::Event as XmlEvent;
use quick_xml::name::QName;
use quick_xml::reader::Reader;
use crate::state::WatchdogError;

verus! {

#[verifier::external_type_specification]
#[verifier::external_body]
#[verifier::reject_recursive_types(R)]
pub struct ExReader<R>(Reader<R>);

/// Event kind: an opening tag.
pub const TAG_OPEN: u8 = 0;

/// Event kind: the end of the document.
pub const TAG_END: u8 = 1;

/// Event kind: anything else that reads correctly.
pub const TAG_OTHER: u8 = 2;

/// Event kind: malformed input.
pub const TAG_BROKEN: u8 = 3;

/// The `k`-th event (counting from zero) that a reader over `xml` yields:
/// its kind and, for an opening tag, the element name.
pub uninterp spec fn xml_event(xml: Seq<char>, k: nat) -> (u8, Seq<char>);

/// The raw text up to the closing tag `end` that a reader over `xml` yields
/// after `k` events, or `None` where it reports an error.
pub uninterp spec fn xml_text(xml: Seq<char>, k: nat, end: Seq<char>) -> Option<Seq<char>>;

/// The instance to keep running: its identifier and its full configuration.
#[derive(Debug, Clone)]
pub struct DomainDescriptor {
    pub identifier: String,
    pub raw_config: String,
}

/// One event of the document, as far as the search for the identifier needs it.
enum XmlTag {
    Open(String),
    End,
    Other,
    Broken,
}

spec fn tag_model(t: XmlTag) -> (u8, Seq<char>) {
    match t {
        XmlTag::Open(n) => (TAG_OPEN, n@),
        XmlTag::End => (TAG_END, Seq::empty()),
        XmlTag::Other => (TAG_OTHER, Seq::empty()),
        XmlTag::Broken => (TAG_BROKEN, Seq::empty()),
    }
}

/// A reader over a document, with the document and the number of events
/// read so far.
struct XmlCursor<'a> {
    reader: Reader<&'a [u8]>,
    doc: Ghost<Seq<char>>,
    read: Ghost<nat>,
}

/// Relies on quick_xml::reader::Reader::from_str: a reader positioned at the
/// start of `xml`, which has yielded no event yet.
#[verifier::external_body]
fn open_reader<'a>(xml: &'a str) -> (c: XmlCursor<'a>)
    ensures
        c.doc@ == xml@,
        c.read@ == 0,
{
    XmlCursor { reader: Reader::from_str(xml), doc: Ghost(xml@), read: Ghost(0) }
}

/// Relies on quick_xml::reader::Reader::read_event: reads the next event,
/// keeping only the name of an opening tag.
#[verifier::external_body]
fn next_tag(c: &mut XmlCursor) -> (t: XmlTag)
    ensures
        final(c).doc == old(c).doc,
        final(c).read@ == old(c).read@ + 1,
        tag_model(t) == xml_event(old(c).doc@, old(c).read@),
{
    match c.reader.read_event() {
        Ok(XmlEvent::Start(e)) => XmlTag::Open(e.name().into_inner().to_owned()),
        Ok(XmlEvent::Eof) => XmlTag::End,
        Ok(_) => XmlTag::Other,
        Err(_) => XmlTag::Broken,
    }
}

/// Relies on quick_xml::reader::Reader::read_text: the raw text up to the
/// closing tag `name`, or `None` where the input is malformed.
#[verifier::external_body]
fn element_text(c: &mut XmlCursor, name: &str) -> (r: Option<String>)
    ensures
        r matches Some(s) ==> xml_text(old(c).doc@, old(c).read@, name@) == Some(s@),
        r is None ==> xml_text(old(c).doc@, old(c).read@, name@) is None,
{
    match c.reader.read_text(QName(name)) {
        Ok(text) => Some(text.into_inner().into_owned()),
        Err(_) => None,
    }
}

/// Whether the `k`-th event of `xml` opens a `name` element.
pub open spec fn opens_name(xml: Seq<char>, k: nat) -> bool {
    xml_event(xml, k).0 == TAG_OPEN && xml_event(xml, k).1 == "name"@
}

/// The index of the first event of `xml` that opens a `name` element, looking
/// at events `k` onwards and at most `fuel` more after event `k`; `None` where
/// the document ends or breaks first.
pub open spec fn find_name_from(xml: Seq<char>, k: nat, fuel: nat) -> Option<nat>
    decreases fuel,
{
    if opens_name(xml, k) {
        Some(k)
    } else if xml_event(xml, k).0 == TAG_END || xml_event(xml, k).0 == TAG_BROKEN || fuel == 0 {
        None
    } else {
        find_name_from(xml, k + 1, (fuel - 1) as nat)
    }
}

/// The index of the event that opens the identifier's element. The search
/// reads at most one event per byte of the document, and one more: every
/// event but the end consumes at least one byte.
pub open spec fn name_event(xml: &str) -> Option<nat> {
    find_name_from(xml@, 0, xml.len() as nat)
}

/// Extracts the identifier from a descriptor document: the text of its first
/// `name` element. A document without one, or malformed before it, is a
/// parse error.
pub fn parse_descriptor(xml: &str) -> (r: Result<DomainDescriptor, WatchdogError>)
    ensures
        r is Ok <==> (name_event(xml) matches Some(k) && xml_text(xml@, k + 1, "name"@) is Some),
        r matches Ok(d) ==> d.raw_config@ == xml@ && xml_text(
            xml@,
            name_event(xml)->0 + 1,
            "name"@,
        ) == Some(d.identifier@),
        r matches Err(e) ==> e == WatchdogError::Parse,
{
    let tag = "name".to_owned();
    let mut cursor = open_reader(xml);
    let mut budget: usize = xml.len();
    loop
        invariant
            cursor.doc@ == xml@,
            tag@ == "name"@,
            find_name_from(xml@, cursor.read@, budget as nat) == name_event(xml),
        decreases budget,
    {
        match next_tag(&mut cursor) {
            XmlTag::Open(n) => {
                if n == tag {
                    return match element_text(&mut cursor, tag.as_str()) {
                        Some(identifier) => Ok(
                            DomainDescriptor { identifier, raw_config: xml.to_owned() },
                        ),
                        None => Err(WatchdogError::Parse),
                    };
                }
            },
            XmlTag::End | XmlTag::Broken => {
                return Err(WatchdogError::Parse);
            },
            XmlTag::Other => {},
        }
        if budget == 0 {
            return Err(WatchdogError::Parse);
        }
        budget = budget - 1;
    }
}

} // verus!
