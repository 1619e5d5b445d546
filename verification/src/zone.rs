//! Time-zone name lookup and offset rendering.
//!
//! Names are keyed by a zone identifier (a per-zone override) or, through
//! the metazone lookup table, by a metazone identifier.  The localized
//! offset format is assembled from the zone essentials; the ISO offset
//! format is fixed ASCII text.

use vstd::prelude::*;
use crate::data::{
    DecimalSymbols, DecimalSymbolsModel, MzSpecificEntry, NameEntryModel, ZoneEssentials,
    ZoneEssentialsModel,
};
use crate::decimal::{format_number, spec_number_text};
use crate::input::ZoneVariant;
use crate::names::{lookup_name, spec_lookup_name};
use crate::data::NameEntry;

verus! {

/// The model of an [`MzSpecificEntry`] sequence lookup: the first entry
/// filed under the key.
pub open spec fn spec_lookup_specific(
    entries: Seq<crate::data::MzSpecificEntryModel>,
    key: Seq<char>,
    variant: ZoneVariant,
) -> Option<Seq<char>>
    decreases entries.len(),
{
    if entries.len() == 0 {
        None
    } else if entries[0].key == key {
        match variant {
            ZoneVariant::Standard => entries[0].standard,
            ZoneVariant::Daylight => entries[0].daylight,
        }
    } else {
        spec_lookup_specific(entries.drop_first(), key, variant)
    }
}

/// Finds the name of the given variant in the first entry filed under the
/// key.
pub fn lookup_specific(entries: &Vec<MzSpecificEntry>, key: &String, variant: ZoneVariant) -> (r:
    Option<String>)
    ensures
        ({
            let all = entries@.map(|i: int, e: MzSpecificEntry| e@);
            match r {
                Some(s) => spec_lookup_specific(all, key@, variant) == Some(s@),
                None => spec_lookup_specific(all, key@, variant) is None,
            }
        }),
{
    let ghost all = entries@.map(|i: int, e: MzSpecificEntry| e@);
    let mut i: usize = 0;
    proof {
        assert(all.skip(0) =~= all);
    }
    while i < entries.len()
        invariant
            i <= entries.len(),
            all == entries@.map(|i: int, e: MzSpecificEntry| e@),
            spec_lookup_specific(all.skip(i as int), key@, variant) == spec_lookup_specific(
                all,
                key@,
                variant,
            ),
        decreases entries.len() - i,
    {
        let entry = &entries[i];
        proof {
            assert(all.skip(i as int)[0] == all[i as int]);
        }
        if entry.key == *key {
            let chosen = match variant {
                ZoneVariant::Standard => &entry.standard,
                ZoneVariant::Daylight => &entry.daylight,
            };
            return match chosen {
                Some(s) => Some(s.clone()),
                None => None,
            };
        }
        proof {
            assert(all.skip(i as int).drop_first() =~= all.skip(i as int + 1));
        }
        i += 1;
    }
    proof {
        assert(all.skip(i as int).len() == 0);
    }
    None
}

/// The absolute offset split into hours and leftover minutes.
pub open spec fn spec_offset_hours(offset_seconds: int) -> int {
    (if offset_seconds < 0 {
        -offset_seconds
    } else {
        offset_seconds
    }) / 3600
}

/// The leftover minutes of an offset after its whole hours.
pub open spec fn spec_offset_minutes(offset_seconds: int) -> int {
    ((if offset_seconds < 0 {
        -offset_seconds
    } else {
        offset_seconds
    }) % 3600) / 60
}

/// The sign text of an offset: a plus for a non-negative offset, the
/// locale's minus sign (or the ASCII hyphen without symbols) otherwise.
pub open spec fn spec_offset_sign(
    offset_seconds: int,
    symbols: Option<DecimalSymbolsModel>,
) -> Seq<char> {
    if offset_seconds < 0 {
        match symbols {
            Some(sy) => sy.minus_sign,
            None => "-"@,
        }
    } else {
        "+"@
    }
}

/// The localized offset text: the zero name for the zero offset, else the
/// prefix, the sign, and the hours, with minutes after the separator.
/// The long form pads hours to two digits and always writes minutes; the
/// short form writes bare hours and minutes only when they are not zero.
pub open spec fn spec_localized_offset_text(
    essentials: ZoneEssentialsModel,
    symbols: Option<DecimalSymbolsModel>,
    offset_seconds: int,
    long: bool,
) -> Seq<char> {
    if offset_seconds == 0 {
        essentials.offset_zero
    } else {
        let hours = spec_offset_hours(offset_seconds);
        let minutes = spec_offset_minutes(offset_seconds);
        essentials.offset_prefix + spec_offset_sign(offset_seconds, symbols) + (if long {
            spec_number_text(hours, 2, symbols) + essentials.offset_separator + spec_number_text(
                minutes,
                2,
                symbols,
            )
        } else {
            spec_number_text(hours, 1, symbols) + (if minutes != 0 {
                essentials.offset_separator + spec_number_text(minutes, 2, symbols)
            } else {
                Seq::<char>::empty()
            })
        })
    }
}

/// Renders the localized offset.
pub fn localized_offset_text(
    essentials: &ZoneEssentials,
    symbols: Option<&DecimalSymbols>,
    offset_seconds: i32,
    long: bool,
) -> (r: String)
    requires
        symbols matches Some(sy) ==> sy@.digits.len() == 10,
    ensures
        r@ == spec_localized_offset_text(
            essentials@,
            match symbols {
                Some(sy) => Some(sy@),
                None => None,
            },
            offset_seconds as int,
            long,
        ),
{
    if offset_seconds == 0 {
        return essentials.offset_zero.clone();
    }
    let magnitude: u64 = if offset_seconds < 0 {
        (-(offset_seconds as i64)) as u64
    } else {
        offset_seconds as u64
    };
    let hours: u64 = magnitude / 3600;
    let minutes: u64 = (magnitude % 3600) / 60;
    let mut out = essentials.offset_prefix.clone();
    if offset_seconds < 0 {
        match symbols {
            Some(sy) => out.append(sy.minus_sign.as_str()),
            None => {
                proof {
                    reveal_strlit("-");
                }
                out.append("-")
            },
        }
    } else {
        proof {
            reveal_strlit("+");
        }
        out.append("+");
    }
    if long {
        let hours_text = format_number(hours, 2, symbols);
        out.append(hours_text.as_str());
        out.append(essentials.offset_separator.as_str());
        let minutes_text = format_number(minutes, 2, symbols);
        out.append(minutes_text.as_str());
    } else {
        let hours_text = format_number(hours, 1, symbols);
        out.append(hours_text.as_str());
        if minutes != 0 {
            out.append(essentials.offset_separator.as_str());
            let minutes_text = format_number(minutes, 2, symbols);
            out.append(minutes_text.as_str());
        }
    }
    out
}

/// The ISO offset text: `Z` for the zero offset where the symbol asks for
/// it, else the ASCII sign, two hour digits, a colon where the extended
/// form is asked for, and two minute digits.
pub open spec fn spec_iso_offset_text(offset_seconds: int, extended: bool, with_z: bool) -> Seq<
    char,
> {
    if offset_seconds == 0 && with_z {
        "Z"@
    } else {
        let sign: Seq<char> = if offset_seconds < 0 {
            "-"@
        } else {
            "+"@
        };
        sign + spec_number_text(spec_offset_hours(offset_seconds), 2, None) + (if extended {
            ":"@
        } else {
            Seq::<char>::empty()
        }) + spec_number_text(spec_offset_minutes(offset_seconds), 2, None)
    }
}

/// Renders the ISO offset.
pub fn iso_offset_text(offset_seconds: i32, extended: bool, with_z: bool) -> (r: String)
    ensures
        r@ == spec_iso_offset_text(offset_seconds as int, extended, with_z),
{
    proof {
        reveal_strlit("Z");
        reveal_strlit("-");
        reveal_strlit("+");
        reveal_strlit(":");
    }
    if offset_seconds == 0 && with_z {
        return String::from_str("Z");
    }
    let magnitude: u64 = if offset_seconds < 0 {
        (-(offset_seconds as i64)) as u64
    } else {
        offset_seconds as u64
    };
    let hours: u64 = magnitude / 3600;
    let minutes: u64 = (magnitude % 3600) / 60;
    let mut out = if offset_seconds < 0 {
        String::from_str("-")
    } else {
        String::from_str("+")
    };
    let hours_text = format_number(hours, 2, None);
    out.append(hours_text.as_str());
    if extended {
        out.append(":");
    }
    let minutes_text = format_number(minutes, 2, None);
    out.append(minutes_text.as_str());
    out
}

/// The name a zone identifier resolves to against a generic or location
/// style name table: the per-zone override first, then the table entry of
/// the zone's metazone.
pub open spec fn spec_zone_name(
    entries: Seq<NameEntryModel>,
    periods: Seq<NameEntryModel>,
    zone_id: Seq<char>,
) -> Option<Seq<char>> {
    match spec_lookup_name(entries, zone_id) {
        Some(name) => Some(name),
        None => match spec_lookup_name(periods, zone_id) {
            Some(mz) => spec_lookup_name(entries, mz),
            None => None,
        },
    }
}

/// Resolves a zone identifier against a name table, by the zone override
/// first and the metazone entry second.
pub fn zone_name(entries: &Vec<NameEntry>, periods: &Vec<NameEntry>, zone_id: &String) -> (r:
    Option<String>)
    ensures
        ({
            let spec_r = spec_zone_name(
                crate::data::entries_view(entries@),
                crate::data::entries_view(periods@),
                zone_id@,
            );
            match r {
                Some(s) => spec_r == Some(s@),
                None => spec_r is None,
            }
        }),
{
    match lookup_name(entries, zone_id) {
        Some(name) => Some(name),
        None => match lookup_name(periods, zone_id) {
            Some(mz) => lookup_name(entries, &mz),
            None => None,
        },
    }
}

/// The specific name a zone identifier and variant resolve to: the
/// per-zone override first, then the entry of the zone's metazone.
pub open spec fn spec_zone_specific_name(
    entries: Seq<crate::data::MzSpecificEntryModel>,
    periods: Seq<NameEntryModel>,
    zone_id: Seq<char>,
    variant: ZoneVariant,
) -> Option<Seq<char>> {
    match spec_lookup_specific(entries, zone_id, variant) {
        Some(name) => Some(name),
        None => match spec_lookup_name(periods, zone_id) {
            Some(mz) => spec_lookup_specific(entries, mz, variant),
            None => None,
        },
    }
}

/// Resolves a zone identifier and variant against a specific name table.
pub fn zone_specific_name(
    entries: &Vec<MzSpecificEntry>,
    periods: &Vec<NameEntry>,
    zone_id: &String,
    variant: ZoneVariant,
) -> (r: Option<String>)
    ensures
        ({
            let spec_r = spec_zone_specific_name(
                entries@.map(|i: int, e: MzSpecificEntry| e@),
                crate::data::entries_view(periods@),
                zone_id@,
                variant,
            );
            match r {
                Some(s) => spec_r == Some(s@),
                None => spec_r is None,
            }
        }),
{
    match lookup_specific(entries, zone_id, variant) {
        Some(name) => Some(name),
        None => match lookup_name(periods, zone_id) {
            Some(mz) => lookup_specific(entries, &mz, variant),
            None => None,
        },
    }
}

} // verus!
