//! The event stream of an XML document, as plain values.

use quick_xml::events::BytesStart;
use quick_xml::events::Event;
use quick_xml::Reader;
use vstd::prelude::*;

verus! {

/// One attribute of a start tag: key and raw value, both as written.
pub struct XmlAttr {
    pub key: String,
    pub value: String,
}

/// A start tag: its qualified name and its well-formed attributes in
/// document order.
pub struct XmlElement {
    pub name: String,
    pub attrs: Vec<XmlAttr>,
}

/// What the extractors distinguish in the event stream.
pub enum XmlEvent {
    /// `<tag ...>`
    Start(XmlElement),
    /// `<tag .../>`
    Empty(XmlElement),
    /// `</tag>`
    End,
    /// The reader met an error at this point.
    Malformed,
    /// Text, comments, declarations and the like.
    Other,
}

pub struct AttrView {
    pub key: Seq<char>,
    pub value: Seq<char>,
}

pub struct ElementView {
    pub name: Seq<char>,
    pub attrs: Seq<AttrView>,
}

pub enum EventView {
    Start(ElementView),
    Empty(ElementView),
    End,
    Malformed,
    Other,
}

impl DeepView for XmlAttr {
    type V = AttrView;

    open spec fn deep_view(&self) -> AttrView {
        AttrView { key: self.key@, value: self.value@ }
    }
}

impl DeepView for XmlElement {
    type V = ElementView;

    open spec fn deep_view(&self) -> ElementView {
        ElementView { name: self.name@, attrs: self.attrs.deep_view() }
    }
}

impl DeepView for XmlEvent {
    type V = EventView;

    open spec fn deep_view(&self) -> EventView {
        match self {
            XmlEvent::Start(e) => EventView::Start(e.deep_view()),
            XmlEvent::Empty(e) => EventView::Empty(e.deep_view()),
            XmlEvent::End => EventView::End,
            XmlEvent::Malformed => EventView::Malformed,
            XmlEvent::Other => EventView::Other,
        }
    }
}

/// quick-xml's reader. Nothing of its state is known but the events it has
/// yet to hand out.
#[verifier::external_type_specification]
#[verifier::external_body]
#[verifier::reject_recursive_types(R)]
pub struct ExReader<R>(Reader<R>);

/// The events that quick-xml reports for a document, in order, up to but not
/// including the end of input, with text trimming switched on.
pub uninterp spec fn xml_events(content: Seq<char>) -> Seq<EventView>;

/// The events that a reader has not yet handed out.
pub uninterp spec fn reader_pending(reader: Reader<&[u8]>) -> Seq<EventView>;

/// `Reader::from_str` followed by `Config::trim_text(true)`: a fresh reader
/// over the document, which has handed out nothing yet.
#[verifier::external_body]
fn open_reader<'a>(content: &'a str) -> (reader: Reader<&'a [u8]>)
    ensures
        reader_pending(reader) == xml_events(content@),
{
    let mut reader = Reader::from_str(content);
    reader.config_mut().trim_text(true);
    reader
}

/// `Reader::read_event_into`: hands out the next pending event, or `None` at
/// the end of input. Every call consumes input, so the pending events are
/// finitely many; a failed read counts as one event, and attributes that do
/// not parse are left out of a tag.
#[verifier::external_body]
fn next_event(reader: &mut Reader<&[u8]>) -> (event: Option<XmlEvent>)
    ensures
        match event {
            Some(e) => reader_pending(*old(reader)).len() > 0
                && e.deep_view() == reader_pending(*old(reader))[0]
                && reader_pending(*final(reader)) == reader_pending(*old(reader)).skip(1),
            None => reader_pending(*old(reader)).len() == 0
                && reader_pending(*final(reader)).len() == 0,
        },
{
    let element = |e: &BytesStart| XmlElement {
        name: e.name().0.to_string(),
        attrs: e.attributes().flatten().map(|a| XmlAttr {
            key: a.key.0.to_string(),
            value: a.value.to_string(),
        }).collect(),
    };
    match reader.read_event_into(&mut Vec::new()) {
        Ok(Event::Start(e)) => Some(XmlEvent::Start(element(&e))),
        Ok(Event::Empty(e)) => Some(XmlEvent::Empty(element(&e))),
        Ok(Event::End(_)) => Some(XmlEvent::End),
        Ok(Event::Eof) => None,
        Ok(_) => Some(XmlEvent::Other),
        Err(_) => Some(XmlEvent::Malformed),
    }
}

/// Reads a whole document into its events.
pub fn read_events(content: &str) -> (events: Vec<XmlEvent>)
    ensures
        events.deep_view() == xml_events(content@),
{
    let mut reader = open_reader(content);
    let mut events: Vec<XmlEvent> = Vec::new();
    let ghost all = xml_events(content@);
    loop
        invariant
            all == events.deep_view() + reader_pending(reader),
        ensures
            all == events.deep_view(),
        decreases reader_pending(reader).len(),
    {
        let ghost before = events.deep_view();
        let ghost pending = reader_pending(reader);
        match next_event(&mut reader) {
            Some(event) => {
                events.push(event);
                assert(events.deep_view() =~= before.push(pending[0]));
                assert(before.push(pending[0]) + pending.skip(1) =~= before + pending);
            },
            None => {
                assert(before + pending =~= before);
                break;
            },
        }
    }
    events
}

/// How many events an element takes up after its start tag: everything up
/// to and with its end tag, or up to and with the first malformed event, or
/// up to the end of the events, whichever comes first. `depth` counts the
/// elements inside it that are open.
pub open spec fn element_extent(rest: Seq<EventView>, depth: nat) -> nat
    decreases rest.len(),
{
    if rest.len() == 0 {
        0
    } else {
        match rest[0] {
            EventView::Start(_) => 1 + element_extent(rest.skip(1), depth + 1),
            EventView::End => if depth == 0 {
                1
            } else {
                1 + element_extent(rest.skip(1), (depth - 1) as nat)
            },
            EventView::Malformed => 1,
            _ => 1 + element_extent(rest.skip(1), depth),
        }
    }
}

/// The index behind the element whose content begins at `start`.
pub fn element_end(events: &[XmlEvent], start: usize) -> (end: usize)
    ensures
        start <= events.len() ==> end == start + element_extent(
            events.deep_view().skip(start as int),
            0,
        ) && end <= events.len(),
        start > events.len() ==> end == start,
{
    if start > events.len() {
        return start;
    }
    let ghost all = events.deep_view();
    let mut pos = start;
    let mut depth: usize = 0;
    while pos < events.len()
        invariant
            start <= pos <= events.len(),
            depth <= pos - start,
            all == events.deep_view(),
            start + element_extent(all.skip(start as int), 0) == pos + element_extent(
                all.skip(pos as int),
                depth as nat,
            ),
        decreases events.len() - pos,
    {
        proof {
            assert(all.skip(pos as int)[0] == events[pos as int].deep_view());
            assert(all.skip(pos as int).skip(1) =~= all.skip(pos + 1));
        }
        match &events[pos] {
            XmlEvent::Start(_) => {
                depth = depth + 1;
            },
            XmlEvent::End => {
                if depth == 0 {
                    return pos + 1;
                }
                depth = depth - 1;
            },
            XmlEvent::Malformed => {
                return pos + 1;
            },
            _ => {},
        }
        pos = pos + 1;
    }
    assert(all.skip(pos as int).len() == 0);
    pos
}

/// What kind of event this is, for the counting of depth.
enum Step {
    Opens,
    Closes,
    Breaks,
    Passes,
}

/// Reads a document event by event.
pub struct EventReader<'a> {
    reader: Reader<&'a [u8]>,
}

impl<'a> EventReader<'a> {
    /// The events that the reader has yet to hand out.
    pub closed spec fn pending(&self) -> Seq<EventView> {
        reader_pending(self.reader)
    }

    /// A reader at the head of a document.
    pub fn open(content: &'a str) -> (r: Self)
        ensures
            r.pending() == xml_events(content@),
    {
        EventReader { reader: open_reader(content) }
    }

    /// Hands out the next event, or nothing at the end of the document.
    pub fn next(&mut self) -> (event: Option<XmlEvent>)
        ensures
            match event {
                Some(e) => old(self).pending().len() > 0 && e.deep_view() == old(self).pending()[0]
                    && final(self).pending() == old(self).pending().skip(1),
                None => old(self).pending().len() == 0 && final(self).pending().len() == 0,
            },
    {
        next_event(&mut self.reader)
    }

    /// Reads the rest of the element whose start tag was just handed out:
    /// the start tag and, behind it, the events that the element takes up.
    pub fn read_element(&mut self, first: XmlEvent) -> (element: Vec<XmlEvent>)
        ensures
            ({
                let pending = old(self).pending();
                let n = element_extent(pending, 0);
                &&& n <= pending.len()
                &&& element.deep_view() == seq![first.deep_view()] + pending.take(n as int)
                &&& final(self).pending() == pending.skip(n as int)
            }),
    {
        let ghost pending = self.pending();
        let ghost head = first.deep_view();
        let mut element: Vec<XmlEvent> = Vec::new();
        element.push(first);
        let mut depth: usize = 0;
        let ghost mut k: int = 0;
        assert(element.deep_view() =~= seq![head] + pending.take(0));
        assert(pending.skip(0) =~= pending);
        loop
            invariant_except_break
                element_extent(pending, 0) == k + element_extent(pending.skip(k), depth as nat),
            invariant
                0 <= k <= pending.len(),
                element.len() == k + 1,
                depth <= k,
                self.pending() == pending.skip(k),
                element.deep_view() == seq![head] + pending.take(k),
            ensures
                0 <= k <= pending.len(),
                k == element_extent(pending, 0),
                self.pending() == pending.skip(k),
                element.deep_view() == seq![head] + pending.take(k),
            decreases pending.len() - k,
        {
            let ghost before = element.deep_view();
            match self.next() {
                Some(event) => {
                    proof {
                        assert(pending.skip(k)[0] == pending[k]);
                        assert(pending.skip(k).skip(1) =~= pending.skip(k + 1));
                    }
                    let step = match &event {
                        XmlEvent::Start(_) => Step::Opens,
                        XmlEvent::End => Step::Closes,
                        XmlEvent::Malformed => Step::Breaks,
                        _ => Step::Passes,
                    };
                    element.push(event);
                    proof {
                        assert(element.deep_view() =~= before.push(pending[k]));
                        assert(before.push(pending[k]) =~= seq![head] + pending.take(k + 1));
                        k = k + 1;
                    }
                    match step {
                        Step::Opens => {
                            depth = depth + 1;
                        },
                        Step::Closes => {
                            if depth == 0 {
                                break;
                            }
                            depth = depth - 1;
                        },
                        Step::Breaks => {
                            break;
                        },
                        Step::Passes => {},
                    }
                },
                None => {
                    assert(pending.skip(k).len() == 0);
                    break;
                },
            }
        }
        element
    }
}

} // verus!
