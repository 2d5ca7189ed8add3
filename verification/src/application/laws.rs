//! What holds of the matchers a run sets up, whatever is offered.

use vstd::prelude::*;

use crate::application::arguments::sub_table;
use crate::application::{named, names_distinct, reserved, spec_add, spec_add_pattern, Arguments};
use crate::config::value_bool;
use crate::matcher::{Matcher, Pattern};

verus! {

/// Offering a matcher never makes two matchers share a name.
pub proof fn law_add_keeps_names_distinct(ms: Seq<Matcher>, m: Matcher)
    requires
        names_distinct(ms),
    ensures
        names_distinct(spec_add(ms, m)),
{
    if !named(ms, m.spec_name()) {
        let next = ms.push(m);
        assert forall|i: int, j: int| 0 <= i < j < next.len() implies next[i].spec_name() != next[j].spec_name() by {
            if j == ms.len() {
                assert(next[i] == ms[i]);
            } else {
                assert(next[i] == ms[i]);
                assert(next[j] == ms[j]);
            }
        }
    }
}

/// Once a matcher is offered, a matcher of its name is there, and the
/// matchers that were there stay, in order.
pub proof fn law_offered_name_is_present(ms: Seq<Matcher>, m: Matcher)
    ensures
        named(spec_add(ms, m), m.spec_name()),
        spec_add(ms, m).take(ms.len() as int) == ms,
{
    if !named(ms, m.spec_name()) {
        assert(spec_add(ms, m)[ms.len() as int] == m);
    }
    assert(spec_add(ms, m).take(ms.len() as int) =~= ms);
}

/// Offering the same matcher twice is offering it once.
pub proof fn law_add_twice_is_add_once(ms: Seq<Matcher>, m: Matcher)
    ensures
        spec_add(spec_add(ms, m), m) == spec_add(ms, m),
{
    law_offered_name_is_present(ms, m);
}

/// A pattern that takes the name of one of the program's own matchers, or
/// that is meant for another time setting than the run's, is never added.
pub proof fn law_refused_patterns(ms: Seq<Matcher>, p: Pattern, time: bool)
    requires
        reserved(p.name@) || p.time != time,
    ensures
        spec_add_pattern(ms, p, time) == ms,
{
}

/// The `metadata` table of the configuration enables the file times that
/// it sets to true, whatever the other entry holds or whether it is there:
/// creation times when `created` is true, modification times when
/// `modified` is true, both when both are, and none when neither is; this
/// holds of a run whose times were not enabled yet.
pub proof fn law_metadata_table_enables_the_times_set_true(pre: Arguments, table: crate::config::ConfigTable, post: Arguments)
    requires
        Arguments::configured(pre, table, post),
        pre.metadata is Neither,
        sub_table(table, "matchers"@) matches Some(m) && sub_table(m, "metadata"@) is Some,
    ensures
        ({
            let md = sub_table(sub_table(table, "matchers"@)->0, "metadata"@)->0;
            let created = value_bool(md.spec_get("created"@)) == Some(true);
            let modified = value_bool(md.spec_get("modified"@)) == Some(true);
            &&& (post.metadata is Created || post.metadata is Both) == created
            &&& (post.metadata is Modified || post.metadata is Both) == modified
        }),
{
}

} // verus!
