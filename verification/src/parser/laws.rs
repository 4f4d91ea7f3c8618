//! What holds of every extraction.

use crate::models::common::AddressView;
use crate::models::egrip::EgripRecordView;
use crate::models::egrul::EgrulRecordView;
use crate::models::egrul::RegistrationInfoView;
use crate::models::egrul::EgrulRecord;
use crate::parser::blocks::element_at;
use crate::parser::blocks::with_region_fallback;
use crate::parser::egrip_parser::sp_finished;
use crate::parser::egrip_parser::sp_record_at;
use crate::parser::egrip_parser::sp_record_of;
use crate::parser::egrip_parser::sp_authority;
use crate::parser::egrip_parser::sp_records;
use crate::parser::egrip_parser::sp_walked;
use crate::parser::blocks::code_of;
use crate::parser::egrip_parser::sp_records_from;
use crate::parser::egrul_parser::first_certified;
use crate::parser::egrul_parser::le_finished;
use crate::parser::egrul_parser::le_record_at;
use crate::parser::egrul_parser::le_record_start;
use crate::parser::egrul_parser::le_record_of;
use crate::parser::egrul_parser::le_authority_code;
use crate::parser::egrul_parser::le_records;
use crate::parser::egrul_parser::le_walked;
use crate::parser::egrul_parser::le_records_from;
use crate::parser::egrul_parser::LeBody;
use crate::parser::walker::lemma_walk_keeps;
use crate::parser::walker::walk;
use crate::parser::walker::Block;
use crate::text::is_digit;
use crate::xml::ElementView;
use crate::xml::EventView;
use crate::xml::element_extent;
use vstd::prelude::*;

verus! {

/// Whether no start tag among the events opens a record of the given name.
pub open spec fn has_no_root(events: Seq<EventView>, root: Seq<char>) -> bool {
    forall|i: int|
        0 <= i < events.len() ==> !((#[trigger] events[i]) is Start && events[i]->Start_0.is_tag(
            root,
        ))
}

proof fn lemma_no_le_root_from(events: Seq<EventView>, pos: int)
    requires
        has_no_root(events, "СвЮЛ"@),
    ensures
        le_records_from(events, pos) == Seq::<EgrulRecordView>::empty(),
    decreases events.len() - pos,
{
    if 0 <= pos < events.len() {
        assert(!(events[pos] is Start && events[pos]->Start_0.is_tag("СвЮЛ"@)));
        if !(events[pos] is Malformed) {
            lemma_no_le_root_from(events, pos + 1);
        }
    }
}

proof fn lemma_no_sp_root_from(events: Seq<EventView>, pos: int)
    requires
        has_no_root(events, "СвИП"@),
    ensures
        sp_records_from(events, pos) == Seq::<EgripRecordView>::empty(),
    decreases events.len() - pos,
{
    if 0 <= pos < events.len() {
        assert(!(events[pos] is Start && events[pos]->Start_0.is_tag("СвИП"@)));
        if !(events[pos] is Malformed) {
            lemma_no_sp_root_from(events, pos + 1);
        }
    }
}

/// A document in which no tag opens a record of a legal entity yields no
/// such record.
pub proof fn lemma_no_le_root_no_records(events: Seq<EventView>)
    requires
        has_no_root(events, "СвЮЛ"@),
    ensures
        le_records(events).len() == 0,
{
    lemma_no_le_root_from(events, 0);
}

/// A document in which no tag opens a record of a sole proprietor yields
/// no such record.
pub proof fn lemma_no_sp_root_no_records(events: Seq<EventView>)
    requires
        has_no_root(events, "СвИП"@),
    ensures
        sp_records(events).len() == 0,
{
    lemma_no_sp_root_from(events, 0);
}

proof fn lemma_le_records_valid_from(events: Seq<EventView>, pos: int)
    ensures
        forall|i: int|
            0 <= i < le_records_from(events, pos).len() ==> (#[trigger] le_records_from(
                events,
                pos,
            )[i]).is_valid(),
    decreases events.len() - pos,
{
    let all = le_records_from(events, pos);
    if 0 <= pos < events.len() {
        match events[pos] {
            EventView::Start(e) => {
                if e.is_tag("СвЮЛ"@) {
                    let end = pos + 1 + element_extent(events.skip(pos + 1), 0);
                    let next = end;
                    let record = le_record_of(events.subrange(pos, end));
                    let found: Seq<EgrulRecordView> = match record {
                        Some(r) => seq![r],
                        None => Seq::empty(),
                    };
                    assert(record is Some ==> record->0.is_valid());
                    if next <= events.len() {
                        lemma_le_records_valid_from(events, next);
                        let rest = le_records_from(events, next);
                        assert(all == found + rest);
                        assert forall|i: int| 0 <= i < all.len() implies (#[trigger] all[i]).is_valid() by {
                            if i >= found.len() {
                                assert(all[i] == rest[i - found.len()]);
                            } else {
                                assert(all[i] == found[i]);
                            }
                        }
                    } else {
                        assert(all == found);
                    }
                } else {
                    lemma_le_records_valid_from(events, pos + 1);
                    assert(all == le_records_from(events, pos + 1));
                }
            },
            EventView::Malformed => {
                assert(all.len() == 0);
            },
            _ => {
                lemma_le_records_valid_from(events, pos + 1);
                assert(all == le_records_from(events, pos + 1));
            },
        }
    } else {
        assert(all.len() == 0);
    }
}

proof fn lemma_sp_records_valid_from(events: Seq<EventView>, pos: int)
    ensures
        forall|i: int|
            0 <= i < sp_records_from(events, pos).len() ==> (#[trigger] sp_records_from(
                events,
                pos,
            )[i]).is_valid(),
    decreases events.len() - pos,
{
    let all = sp_records_from(events, pos);
    if 0 <= pos < events.len() {
        match events[pos] {
            EventView::Start(e) => {
                if e.is_tag("СвИП"@) {
                    let end = pos + 1 + element_extent(events.skip(pos + 1), 0);
                    let next = end;
                    let record = sp_record_of(events.subrange(pos, end));
                    let found: Seq<EgripRecordView> = match record {
                        Some(r) => seq![r],
                        None => Seq::empty(),
                    };
                    assert(record is Some ==> record->0.is_valid());
                    if next <= events.len() {
                        lemma_sp_records_valid_from(events, next);
                        let rest = sp_records_from(events, next);
                        assert(all == found + rest);
                        assert forall|i: int| 0 <= i < all.len() implies (#[trigger] all[i]).is_valid() by {
                            if i >= found.len() {
                                assert(all[i] == rest[i - found.len()]);
                            } else {
                                assert(all[i] == found[i]);
                            }
                        }
                    } else {
                        assert(all == found);
                    }
                } else {
                    lemma_sp_records_valid_from(events, pos + 1);
                    assert(all == sp_records_from(events, pos + 1));
                }
            },
            EventView::Malformed => {
                assert(all.len() == 0);
            },
            _ => {
                lemma_sp_records_valid_from(events, pos + 1);
                assert(all == sp_records_from(events, pos + 1));
            },
        }
    } else {
        assert(all.len() == 0);
    }
}

/// Every record of a legal entity that is emitted has a registration
/// number, a taxpayer number and a full name.
pub proof fn lemma_le_records_are_valid(events: Seq<EventView>)
    ensures
        forall|i: int|
            0 <= i < le_records(events).len() ==> (#[trigger] le_records(events)[i]).is_valid(),
{
    lemma_le_records_valid_from(events, 0);
}

/// Every record of a sole proprietor that is emitted has a registration
/// number, a taxpayer number, a last name and a first name.
pub proof fn lemma_sp_records_are_valid(events: Seq<EventView>)
    ensures
        forall|i: int|
            0 <= i < sp_records(events).len() ==> (#[trigger] sp_records(events)[i]).is_valid(),
{
    lemma_sp_records_valid_from(events, 0);
}

/// Extracting twice from the same events gives the same records.
pub proof fn lemma_extraction_is_stable(first: Seq<EventView>, second: Seq<EventView>)
    requires
        first == second,
    ensures
        le_records(first) == le_records(second),
        sp_records(first) == sp_records(second),
{
}

/// Whether a registration names no certificate.
pub open spec fn names_no_certificate(registration: Option<RegistrationInfoView>) -> bool {
    match registration {
        Some(r) => r.certificate_series is None && r.certificate_number is None
            && r.certificate_date is None,
        None => true,
    }
}

/// While a record is walked, its registration names no certificate: the
/// registering authority's block is passed over.
pub proof fn lemma_walk_names_no_certificate(
    acc: EgrulRecordView,
    events: Seq<EventView>,
    pos: int,
    depth: nat,
)
    requires
        names_no_certificate(acc.registration),
    ensures
        names_no_certificate(walk::<LeBody, EgrulRecord>(acc, events, pos, depth).acc.registration),
{
    let holds = |a: EgrulRecordView| names_no_certificate(a.registration);
    assert forall|a: EgrulRecordView, p: int| holds(a) implies holds(
        #[trigger] <EgrulRecord as Block<LeBody>>::opened(a, events, p).acc,
    ) by {}
    assert forall|a: EgrulRecordView, e: ElementView| holds(a) implies holds(
        #[trigger] <EgrulRecord as Block<LeBody>>::leaf(a, e),
    ) by {}
    lemma_walk_keeps::<LeBody, EgrulRecord>(holds, acc, events, pos, depth);
}

/// An emitted record with a registration, whose first history row carries
/// a certificate's series or number, has that row's certificate in its
/// registration.
pub proof fn lemma_certificate_of_first_history_row(events: Seq<EventView>, pos: int)
    requires
        0 <= pos < events.len(),
        le_record_at(events, pos).0 is Some,
        le_record_at(events, pos).0->0.registration is Some,
        le_record_at(events, pos).0->0.history.len() > 0,
        le_record_at(events, pos).0->0.history[0].certificate_series is Some || le_record_at(
            events,
            pos,
        ).0->0.history[0].certificate_number is Some,
    ensures
        ({
            let record = le_record_at(events, pos).0->0;
            let registration = record.registration->0;
            let row = record.history[0];
            &&& registration.certificate_series == row.certificate_series
            &&& registration.certificate_number == row.certificate_number
            &&& registration.certificate_date == row.certificate_date
        }),
{
    let start = le_record_start(element_at(events, pos));
    lemma_walk_names_no_certificate(start, events, pos + 1, 0);
    let walked = walk::<LeBody, EgrulRecord>(start, events, pos + 1, 0).acc;
    assert(first_certified(walked.history) == Some(walked.history[0]));
}

/// Whether the address has the given region code.
pub open spec fn has_region_code(address: Option<AddressView>, code: Seq<char>) -> bool {
    address is Some && address->0.region_code == Some(code)
}

/// Whether the address lacks a region code.
pub open spec fn lacks_region_code(address: Option<AddressView>) -> bool {
    match address {
        Some(a) => a.region_code is None,
        None => true,
    }
}

/// Where the address lacks a region code, the code of an authority that
/// begins with two digits gives it those two digits.
pub proof fn lemma_fallback_gives_region_code(address: Option<AddressView>, tax_code: Seq<char>)
    requires
        lacks_region_code(address),
        tax_code.len() >= 2,
        is_digit(tax_code[0]),
        is_digit(tax_code[1]),
    ensures
        has_region_code(with_region_fallback(address, Some(tax_code)), tax_code.take(2)),
{
}

/// A legal entity whose registration names an authority with a code that
/// begins with two digits, and whose address gave no region code, wherever
/// in the record the two stand, is emitted with those two digits as its
/// region code.
pub proof fn lemma_le_region_code_falls_back(acc: EgrulRecordView)
    requires
        lacks_region_code(acc.address),
        acc.registration is Some,
        acc.registration->0.authority is Some,
        acc.registration->0.authority->0.code.len() >= 2,
        is_digit(acc.registration->0.authority->0.code[0]),
        is_digit(acc.registration->0.authority->0.code[1]),
    ensures
        has_region_code(le_finished(acc).address, acc.registration->0.authority->0.code.take(2)),
{
    lemma_fallback_gives_region_code(acc.address, acc.registration->0.authority->0.code);
}

/// A legal entity whose address gave a region code of its own is emitted
/// with that code, whatever the registering authority's code is.
pub proof fn lemma_le_own_region_code_stays(acc: EgrulRecordView, code: Seq<char>)
    requires
        has_region_code(acc.address, code),
    ensures
        has_region_code(le_finished(acc).address, code),
{
}

/// A sole proprietor whose registration names an authority with a code
/// that begins with two digits, and whose address gave no region code,
/// wherever in the record the two stand, is emitted with those two digits as
/// the region code.
pub proof fn lemma_sp_region_code_falls_back(acc: EgripRecordView)
    requires
        lacks_region_code(acc.address),
        acc.registration is Some,
        acc.registration->0.authority is Some,
        acc.registration->0.authority->0.code.len() >= 2,
        is_digit(acc.registration->0.authority->0.code[0]),
        is_digit(acc.registration->0.authority->0.code[1]),
    ensures
        has_region_code(sp_finished(acc).address, acc.registration->0.authority->0.code.take(2)),
{
    lemma_fallback_gives_region_code(acc.address, acc.registration->0.authority->0.code);
}

/// A sole proprietor whose address gave a region code of its own is
/// emitted with that code, whatever the registering authority's code is.
pub proof fn lemma_sp_own_region_code_stays(acc: EgripRecordView, code: Seq<char>)
    requires
        has_region_code(acc.address, code),
    ensures
        has_region_code(sp_finished(acc).address, code),
{
}

/// Of every record of a legal entity that is read from events: if its
/// blocks gave the address no region code, and the registering authority's
/// code begins with two digits, the record has those two digits as its
/// region code; if they gave the address a region code, the record has that
/// one. Neither depends on which of the two blocks stands first.
pub proof fn lemma_le_record_region_code(events: Seq<EventView>, pos: int)
    requires
        le_record_at(events, pos).0 is Some,
    ensures
        ({
            let record = le_record_at(events, pos).0->0;
            let given = le_walked(events, pos).acc.address;
            let code = le_authority_code(record.registration);
            &&& lacks_region_code(given) && code is Some && code->0.len() >= 2 && is_digit(
                code->0[0],
            ) && is_digit(code->0[1]) ==> has_region_code(record.address, code->0.take(2))
            &&& given is Some && given->0.region_code is Some ==> has_region_code(
                record.address,
                given->0.region_code->0,
            )
        }),
{
    let acc = le_walked(events, pos).acc;
    let code = le_authority_code(acc.registration);
    assert(le_authority_code(le_finished(acc).registration) == code);
    if lacks_region_code(acc.address) && code is Some && code->0.len() >= 2 && is_digit(code->0[0])
        && is_digit(code->0[1]) {
        lemma_le_region_code_falls_back(acc);
    }
}

/// Of every record of a sole proprietor that is read from events: if its
/// blocks gave the address no region code, and the registering authority's
/// code begins with two digits, the record has those two digits as its
/// region code; if they gave the address a region code, the record has that
/// one. Neither depends on which of the two blocks stands first.
pub proof fn lemma_sp_record_region_code(events: Seq<EventView>, pos: int)
    requires
        sp_record_at(events, pos).0 is Some,
    ensures
        ({
            let record = sp_record_at(events, pos).0->0;
            let given = sp_walked(events, pos).acc.address;
            let code = code_of(sp_authority(record.registration));
            &&& lacks_region_code(given) && code is Some && code->0.len() >= 2 && is_digit(
                code->0[0],
            ) && is_digit(code->0[1]) ==> has_region_code(record.address, code->0.take(2))
            &&& given is Some && given->0.region_code is Some ==> has_region_code(
                record.address,
                given->0.region_code->0,
            )
        }),
{
    let acc = sp_walked(events, pos).acc;
    let code = code_of(sp_authority(acc.registration));
    if lacks_region_code(acc.address) && code is Some && code->0.len() >= 2 && is_digit(code->0[0])
        && is_digit(code->0[1]) {
        lemma_sp_region_code_falls_back(acc);
    }
}

} // verus!
