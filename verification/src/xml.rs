use vstd::prelude::*;

use quick_xml::events::{BytesStart, Event};
use quick_xml::{Reader, XmlVersion};


verus! {

#[verifier::external_type_specification]
#[verifier::external_body]
#[verifier::reject_recursive_types(R)]
pub struct ExXmlReader<R>(quick_xml::Reader<R>);

/// One event of an XML document, as the streaming reader reports it.
pub enum XmlEvent {
    /// A start tag: its qualified name and the raw text of its attributes.
    Start(String, String),
    /// An empty-element tag: its qualified name and the raw text of its attributes.
    Empty(String, String),
    /// An end tag and its qualified name.
    End(String),
    /// Character data, with line ends normalised.
    Text(String),
    /// A general reference `&name;` in character data: its name.
    Reference(String),
    /// A comment, declaration, processing instruction, CDATA section or doctype.
    Other,
    /// The end of the document.
    Eof,
}

/// What one read of an XML reader gives: an event, or the reader's error message.
pub enum XmlEventModel {
    Start(Seq<char>, Seq<char>),
    Empty(Seq<char>, Seq<char>),
    End(Seq<char>),
    Text(Seq<char>),
    Reference(Seq<char>),
    Other,
    Eof,
    Fault(Seq<char>),
}

/// The mathematical value of an event.
pub open spec fn event_model(e: XmlEvent) -> XmlEventModel {
    match e {
        XmlEvent::Start(q, a) => XmlEventModel::Start(q@, a@),
        XmlEvent::Empty(q, a) => XmlEventModel::Empty(q@, a@),
        XmlEvent::End(q) => XmlEventModel::End(q@),
        XmlEvent::Text(t) => XmlEventModel::Text(t@),
        XmlEvent::Reference(n) => XmlEventModel::Reference(n@),
        XmlEvent::Other => XmlEventModel::Other,
        XmlEvent::Eof => XmlEventModel::Eof,
    }
}

/// The mathematical values of a list of events.
pub open spec fn events_model(v: Seq<XmlEvent>) -> Seq<XmlEventModel> {
    Seq::new(v.len(), |i: int| event_model(v[i]))
}

/// The value of one read of a reader.
pub open spec fn read_model(r: Result<XmlEvent, String>) -> XmlEventModel {
    match r {
        Ok(e) => event_model(e),
        Err(m) => XmlEventModel::Fault(m@),
    }
}

/// Whether a read ends the reading: the end of the document or an error.
pub open spec fn is_final_read(e: XmlEventModel) -> bool {
    e is Eof || e is Fault
}

/// Whether `reads` is a whole reading: it ends with its one final read.
pub open spec fn whole_reading(reads: Seq<XmlEventModel>) -> bool {
    &&& reads.len() > 0
    &&& is_final_read(reads.last())
    &&& forall|i: int| 0 <= i < reads.len() - 1 ==> !is_final_read(#[trigger] reads[i])
}

/// What `quick_xml::Reader::read_event` reports, read after read, on a reader made by
/// `quick_xml::Reader::from_str` over `text`: every read up to the end of the document or
/// the first error, that one included.
pub uninterp spec fn xml_document_reads(text: Seq<char>) -> Seq<XmlEventModel>;

/// The reads that `reader` has yet to report, up to its end of document or first error,
/// that one included.
pub uninterp spec fn xml_pending_reads(reader: Reader<&[u8]>) -> Seq<XmlEventModel>;

/// The events of `text` before its end, where the reader reaches the end without an error.
pub open spec fn xml_events_of(text: Seq<char>) -> Option<Seq<XmlEventModel>> {
    let reads = xml_document_reads(text);
    if reads.len() > 0 && reads.last() is Eof {
        Some(reads.drop_last())
    } else {
        None
    }
}

/// The value of the attribute `key` among the raw attribute text `attributes`, normalised
/// as XML 1.0 attribute values are, as `quick_xml` reads it (None where it is missing, or
/// the attribute list or the value is malformed).
pub uninterp spec fn xml_attribute_of(attributes: Seq<char>, key: Seq<char>) -> Option<Seq<char>>;

/// The text that `quick_xml::escape::unescape` gives for the reference `&name;`
/// (None where it is not a predefined entity or a valid character reference).
pub uninterp spec fn xml_entity_of(name: Seq<char>) -> Option<Seq<char>>;

/// Calls `quick_xml::Reader::from_str`: a reader over `text` with the default configuration,
/// which keeps character data untrimmed. Every read of a finite document consumes some of
/// it until the end or an error, so the reading is whole.
#[verifier::external_body]
fn xml_reader<'a>(text: &'a str) -> (r: Reader<&'a [u8]>)
    ensures
        xml_pending_reads(r) == xml_document_reads(text@),
        whole_reading(xml_pending_reads(r)),
{
    Reader::from_str(text)
}

/// Calls `quick_xml::Reader::read_event` and hands the event on as an `XmlEvent`, or the
/// reader's error message: the first of the pending reads, which leaves the others pending.
#[verifier::external_body]
fn next_xml_event(reader: &mut Reader<&[u8]>) -> (r: Result<XmlEvent, String>)
    ensures
        xml_pending_reads(*old(reader)).len() > 0 ==> read_model(r) == xml_pending_reads(*old(reader))[0],
        xml_pending_reads(*old(reader)).len() > 1 ==> xml_pending_reads(*final(reader)) == xml_pending_reads(*old(reader)).drop_first(),
{
    match reader.read_event() {
        Ok(event) => Ok(match event {
            Event::Start(t) => XmlEvent::Start(t.name().0.into(), t.attributes_raw().into()),
            Event::Empty(t) => XmlEvent::Empty(t.name().0.into(), t.attributes_raw().into()),
            Event::End(t) => XmlEvent::End(t.name().0.into()),
            Event::Text(t) => XmlEvent::Text(t.xml_content(XmlVersion::Implicit1_0).into()),
            Event::GeneralRef(t) => XmlEvent::Reference(t.into_inner().into()),
            Event::Eof => XmlEvent::Eof,
            _ => XmlEvent::Other,
        }),
        Err(e) => Err(e.to_string()),
    }
}

/// Calls `quick_xml::events::BytesStart::try_get_attribute` on a tag whose attribute text is
/// `attributes`, then `Attribute::normalized_value` for XML 1.0.
#[verifier::external_body]
pub(crate) fn xml_attribute(attributes: &str, key: &str) -> (r: Option<String>)
    ensures
        match r {
            Some(v) => xml_attribute_of(attributes@, key@) == Some(v@),
            None => xml_attribute_of(attributes@, key@) is None,
        },
{
    match BytesStart::from_content(attributes, 0).try_get_attribute(key) {
        Ok(Some(a)) => a.normalized_value(XmlVersion::Implicit1_0).ok().map(|v| v.into_owned()),
        _ => None,
    }
}

/// Calls `quick_xml::escape::unescape` on the reference `&name;`.
#[verifier::external_body]
pub(crate) fn xml_entity(name: &str) -> (r: Option<String>)
    ensures
        match r {
            Some(v) => xml_entity_of(name@) == Some(v@),
            None => xml_entity_of(name@) is None,
        },
{
    quick_xml::escape::unescape(&format!("&{name};")).ok().map(|v| v.into_owned())
}

/// The events of the XML document `text`, in order and without the final end of document,
/// or the reader's error message.
pub fn xml_events(text: &str) -> (r: Result<Vec<XmlEvent>, String>)
    ensures
        match r {
            Ok(events) => xml_events_of(text@) == Some(events_model(events@)),
            Err(m) => xml_events_of(text@) is None && xml_document_reads(text@).last() == XmlEventModel::Fault(m@),
        },
{
    let mut reader = xml_reader(text);
    let ghost all = xml_document_reads(text@);
    let mut events: Vec<XmlEvent> = Vec::new();
    loop
        invariant
            whole_reading(all),
            all == xml_document_reads(text@),
            xml_pending_reads(reader).len() > 0,
            all == events_model(events@) + xml_pending_reads(reader),
        decreases xml_pending_reads(reader).len(),
    {
        let ghost pending = xml_pending_reads(reader);
        let ghost k = events@.len() as int;
        assert(all[k] == pending[0]);
        let read = next_xml_event(&mut reader);
        match read {
            Ok(XmlEvent::Eof) => {
                assert(k == all.len() - 1);
                assert(all.drop_last() =~= events_model(events@));
                return Ok(events);
            },
            Err(m) => {
                assert(k == all.len() - 1);
                return Err(m);
            },
            Ok(event) => {
                assert(!is_final_read(all[k]));
                assert(pending.len() > 1);
                let ghost before = events@;
                events.push(event);
                assert(events_model(events@) =~= events_model(before).push(event_model(event)));
                assert(all =~= events_model(events@) + xml_pending_reads(reader));
            },
        }
    }
}

} // verus!
