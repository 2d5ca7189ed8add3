//! What holds of the renames a pattern gives, whatever the pattern and the
//! file name.

use vstd::prelude::*;

use crate::matcher::date_time::LocalDateTime;
use crate::matcher::number::{spec_parse_i32, spec_parse_u32};
use crate::matcher::pattern::{regex_named_group, Pattern};
use crate::replacement::ReplacementView;

verus! {

/// The number that a group of a match gives as a time part: its digits read
/// as a number, 0 when the group is absent or is not a number.
pub open spec fn number_or_zero(group: Option<Seq<char>>) -> u32 {
    match group {
        Some(t) => match spec_parse_u32(t) {
            Some(v) => v,
            None => 0,
        },
        None => 0,
    }
}

/// Each date and time field of a file stem comes from the group of the
/// pattern's match that bears its name: the year from `year`, the month
/// from `month`, the day from `day`, the hour from `hour`, the minutes from
/// `min` and the seconds from `sec`. The stem gives fields exactly when the
/// year, month and day groups are there and read as numbers.
pub proof fn law_fields_come_from_their_groups(p: Pattern, stem: Seq<char>)
    ensures
        p.spec_fields(stem) is Some <==> ({
            &&& regex_named_group(p.regex@, stem, "year"@) matches Some(t) && spec_parse_i32(t) is Some
            &&& regex_named_group(p.regex@, stem, "month"@) matches Some(t) && spec_parse_u32(t) is Some
            &&& regex_named_group(p.regex@, stem, "day"@) matches Some(t) && spec_parse_u32(t) is Some
        }),
        p.spec_fields(stem) matches Some(f) ==> {
            &&& regex_named_group(p.regex@, stem, "year"@) matches Some(t) && spec_parse_i32(t) == Some(f.0)
            &&& regex_named_group(p.regex@, stem, "month"@) matches Some(t) && spec_parse_u32(t) == Some(f.1)
            &&& regex_named_group(p.regex@, stem, "day"@) matches Some(t) && spec_parse_u32(t) == Some(f.2)
            &&& f.3 == number_or_zero(regex_named_group(p.regex@, stem, "hour"@))
            &&& f.4 == number_or_zero(regex_named_group(p.regex@, stem, "min"@))
            &&& f.5 == number_or_zero(regex_named_group(p.regex@, stem, "sec"@))
        },
{
}

/// A pattern's rename keeps the directory, the file stem and the extension,
/// and makes the new file stem of three parts in a row: the date printed
/// under the pattern's format, the pattern's delimiter, and the text the
/// pattern keeps of the stem. There is a rename exactly when the date can
/// be printed.
pub proof fn law_rename_is_date_delimiter_kept(p: Pattern, base: ReplacementView, dt: LocalDateTime)
    ensures
        p.spec_rename(base, dt) is Some <==> dt.spec_format(p.format@) is Some,
        p.spec_rename(base, dt) matches Some(r) ==> {
            let date = dt.spec_format(p.format@)->0;
            let delimiter = p.delimiter@;
            let kept = p.spec_kept(base.file_stem);
            &&& r.parent == base.parent
            &&& r.file_stem == base.file_stem
            &&& r.extension == base.extension
            &&& r.new_file_stem.len() == date.len() + delimiter.len() + kept.len()
            &&& r.new_file_stem.take(date.len() as int) == date
            &&& r.new_file_stem.subrange(date.len() as int, (date.len() + delimiter.len()) as int) == delimiter
            &&& r.new_file_stem.skip((date.len() + delimiter.len()) as int) == kept
        },
{
    if let Some(r) = p.spec_rename(base, dt) {
        let date = dt.spec_format(p.format@)->0;
        let delimiter = p.delimiter@;
        let kept = p.spec_kept(base.file_stem);
        assert(r.new_file_stem.take(date.len() as int) =~= date);
        assert(r.new_file_stem.subrange(date.len() as int, (date.len() + delimiter.len()) as int) =~= delimiter);
        assert(r.new_file_stem.skip((date.len() + delimiter.len()) as int) =~= kept);
    }
}

} // verus!
