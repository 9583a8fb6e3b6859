//! The fixed table of the fifty states and the District of Columbia.
use vstd::prelude::*;

use crate::record::Record;
use crate::report::{
    all_wf, lemma_total_push, names_single_line, render_report, report, total, EXPECTED_US_TOTAL,
};
use crate::text::single_line;

verus! {

/// The record with the given fields.
pub open spec fn rec(
    name: &'static str,
    current: u64,
    base: u64,
    area_hundredths: u64,
    age_tenths: u64,
) -> Record {
    Record {
        name,
        population_current: current,
        population_base: base,
        land_area_hundredths: area_hundredths,
        median_age_tenths: age_tenths,
    }
}

/// The table, in declaration order: population estimate of the reference
/// year, population of the base year, land area in hundredths of a square
/// unit and median age in tenths of a year.
pub open spec fn states_spec() -> Seq<Record> {
    seq![
        rec("California", 39355309, 39555703, 15577922, 384),
        rec("Texas", 31709821, 29149498, 26123171, 359),
        rec("Florida", 23462518, 21538207, 5362476, 427),
        rec("New York", 20002427, 20203696, 4712640, 401),
        rec("Pennsylvania", 13059432, 13002753, 4474270, 412),
        rec("Illinois", 12719141, 12821741, 5551893, 394),
        rec("Ohio", 11900510, 11799445, 4086069, 398),
        rec("Georgia", 11302748, 10713861, 5751349, 380),
        rec("North Carolina", 11197968, 10441392, 4861791, 394),
        rec("Michigan", 10127884, 10079362, 5653890, 404),
        rec("New Jersey", 9548215, 9289024, 735422, 401),
        rec("Virginia", 8880107, 8631419, 3949009, 394),
        rec("Washington", 8001020, 7707519, 6645552, 387),
        rec("Arizona", 7623818, 7158104, 11359408, 394),
        rec("Tennessee", 7315076, 6912319, 4123490, 391),
        rec("Massachusetts", 7154084, 7033112, 780006, 401),
        rec("Indiana", 6973333, 6786605, 3582611, 383),
        rec("Missouri", 6270541, 6154913, 6874152, 394),
        rec("Maryland", 6265347, 6181640, 970724, 398),
        rec("Wisconsin", 5972787, 5894323, 5415780, 407),
        rec("Colorado", 6012561, 5775326, 10364189, 380),
        rec("Minnesota", 5830405, 5706733, 7962674, 392),
        rec("South Carolina", 5570274, 5118250, 3006070, 407),
        rec("Alabama", 5193088, 5025437, 5064533, 396),
        rec("Louisiana", 4618189, 4657894, 4320390, 387),
        rec("Kentucky", 4606864, 4506287, 3948634, 393),
        rec("Oregon", 4273586, 4237282, 9598801, 408),
        rec("Oklahoma", 4123288, 3959354, 6859492, 374),
        rec("Connecticut", 3688496, 3607750, 484236, 412),
        rec("Utah", 3538904, 3271601, 8216962, 325),
        rec("Iowa", 3238387, 3190582, 5585713, 390),
        rec("Nevada", 3282188, 3105593, 10978118, 395),
        rec("Arkansas", 3114791, 3011530, 5203548, 391),
        rec("Kansas", 2977220, 2937986, 8175872, 380),
        rec("Mississippi", 2954160, 2961264, 4692327, 393),
        rec("New Mexico", 2125498, 2117492, 12129815, 399),
        rec("Nebraska", 2018006, 1961980, 7682417, 374),
        rec("Idaho", 2029733, 1839123, 8264312, 378),
        rec("West Virginia", 1766147, 1793759, 2403821, 429),
        rec("Hawaii", 1432820, 1455267, 642263, 415),
        rec("New Hampshire", 1415342, 1377573, 895265, 436),
        rec("Maine", 1414874, 1363218, 3084292, 449),
        rec("Montana", 1144694, 1084221, 14554580, 413),
        rec("Rhode Island", 1114521, 1097357, 103381, 410),
        rec("Delaware", 1059952, 989950, 194854, 421),
        rec("South Dakota", 935094, 886656, 7581100, 387),
        rec("North Dakota", 799358, 779136, 6900080, 367),
        rec("Alaska", 737270, 733383, 57064095, 363),
        rec("District of Columbia", 693645, 689544, 6105, 349),
        rec("Vermont", 644663, 643077, 921666, 439),
        rec("Wyoming", 588753, 576872, 9709314, 402),
    ]
}

/// Appends a well-formed record to the table under construction.
fn push_row(
    v: &mut Vec<Record>,
    name: &'static str,
    current: u64,
    base: u64,
    area_hundredths: u64,
    age_tenths: u64,
)
    requires
        all_wf(old(v)@),
        names_single_line(old(v)@),
        single_line(name@),
        base > 0,
        area_hundredths > 0,
    ensures
        final(v)@ == old(v)@.push(rec(name, current, base, area_hundredths, age_tenths)),
        total(final(v)@) == total(old(v)@) + current,
        all_wf(final(v)@),
        names_single_line(final(v)@),
{
    let r = Record {
        name,
        population_current: current,
        population_base: base,
        land_area_hundredths: area_hundredths,
        median_age_tenths: age_tenths,
    };
    proof {
        lemma_total_push(v@, r);
    }
    v.push(r);
}

/// The table of all fifty-one records, in declaration order.
pub fn states() -> (r: Vec<Record>)
    ensures
        r@ == states_spec(),
        r@.len() == 51,
        all_wf(r@),
        total(r@) == EXPECTED_US_TOTAL,
        names_single_line(r@),
{
    let mut v: Vec<Record> = Vec::new();
    assert(total(v@) == 0);
    // What each name holds, so that none is seen to hold a line break.
    proof {
        reveal_strlit("California");
        reveal_strlit("Texas");
        reveal_strlit("Florida");
        reveal_strlit("New York");
        reveal_strlit("Pennsylvania");
        reveal_strlit("Illinois");
        reveal_strlit("Ohio");
        reveal_strlit("Georgia");
        reveal_strlit("North Carolina");
        reveal_strlit("Michigan");
        reveal_strlit("New Jersey");
        reveal_strlit("Virginia");
        reveal_strlit("Washington");
        reveal_strlit("Arizona");
        reveal_strlit("Tennessee");
        reveal_strlit("Massachusetts");
        reveal_strlit("Indiana");
        reveal_strlit("Missouri");
        reveal_strlit("Maryland");
        reveal_strlit("Wisconsin");
        reveal_strlit("Colorado");
        reveal_strlit("Minnesota");
        reveal_strlit("South Carolina");
        reveal_strlit("Alabama");
        reveal_strlit("Louisiana");
        reveal_strlit("Kentucky");
        reveal_strlit("Oregon");
        reveal_strlit("Oklahoma");
        reveal_strlit("Connecticut");
        reveal_strlit("Utah");
        reveal_strlit("Iowa");
        reveal_strlit("Nevada");
        reveal_strlit("Arkansas");
        reveal_strlit("Kansas");
        reveal_strlit("Mississippi");
        reveal_strlit("New Mexico");
        reveal_strlit("Nebraska");
        reveal_strlit("Idaho");
        reveal_strlit("West Virginia");
        reveal_strlit("Hawaii");
        reveal_strlit("New Hampshire");
        reveal_strlit("Maine");
        reveal_strlit("Montana");
        reveal_strlit("Rhode Island");
        reveal_strlit("Delaware");
        reveal_strlit("South Dakota");
        reveal_strlit("North Dakota");
        reveal_strlit("Alaska");
        reveal_strlit("District of Columbia");
        reveal_strlit("Vermont");
        reveal_strlit("Wyoming");
    }
    push_row(&mut v, "California", 39355309, 39555703, 15577922, 384);
    push_row(&mut v, "Texas", 31709821, 29149498, 26123171, 359);
    push_row(&mut v, "Florida", 23462518, 21538207, 5362476, 427);
    push_row(&mut v, "New York", 20002427, 20203696, 4712640, 401);
    push_row(&mut v, "Pennsylvania", 13059432, 13002753, 4474270, 412);
    push_row(&mut v, "Illinois", 12719141, 12821741, 5551893, 394);
    push_row(&mut v, "Ohio", 11900510, 11799445, 4086069, 398);
    push_row(&mut v, "Georgia", 11302748, 10713861, 5751349, 380);
    push_row(&mut v, "North Carolina", 11197968, 10441392, 4861791, 394);
    push_row(&mut v, "Michigan", 10127884, 10079362, 5653890, 404);
    push_row(&mut v, "New Jersey", 9548215, 9289024, 735422, 401);
    push_row(&mut v, "Virginia", 8880107, 8631419, 3949009, 394);
    push_row(&mut v, "Washington", 8001020, 7707519, 6645552, 387);
    push_row(&mut v, "Arizona", 7623818, 7158104, 11359408, 394);
    push_row(&mut v, "Tennessee", 7315076, 6912319, 4123490, 391);
    push_row(&mut v, "Massachusetts", 7154084, 7033112, 780006, 401);
    push_row(&mut v, "Indiana", 6973333, 6786605, 3582611, 383);
    push_row(&mut v, "Missouri", 6270541, 6154913, 6874152, 394);
    push_row(&mut v, "Maryland", 6265347, 6181640, 970724, 398);
    push_row(&mut v, "Wisconsin", 5972787, 5894323, 5415780, 407);
    push_row(&mut v, "Colorado", 6012561, 5775326, 10364189, 380);
    push_row(&mut v, "Minnesota", 5830405, 5706733, 7962674, 392);
    push_row(&mut v, "South Carolina", 5570274, 5118250, 3006070, 407);
    push_row(&mut v, "Alabama", 5193088, 5025437, 5064533, 396);
    push_row(&mut v, "Louisiana", 4618189, 4657894, 4320390, 387);
    push_row(&mut v, "Kentucky", 4606864, 4506287, 3948634, 393);
    push_row(&mut v, "Oregon", 4273586, 4237282, 9598801, 408);
    push_row(&mut v, "Oklahoma", 4123288, 3959354, 6859492, 374);
    push_row(&mut v, "Connecticut", 3688496, 3607750, 484236, 412);
    push_row(&mut v, "Utah", 3538904, 3271601, 8216962, 325);
    push_row(&mut v, "Iowa", 3238387, 3190582, 5585713, 390);
    push_row(&mut v, "Nevada", 3282188, 3105593, 10978118, 395);
    push_row(&mut v, "Arkansas", 3114791, 3011530, 5203548, 391);
    push_row(&mut v, "Kansas", 2977220, 2937986, 8175872, 380);
    push_row(&mut v, "Mississippi", 2954160, 2961264, 4692327, 393);
    push_row(&mut v, "New Mexico", 2125498, 2117492, 12129815, 399);
    push_row(&mut v, "Nebraska", 2018006, 1961980, 7682417, 374);
    push_row(&mut v, "Idaho", 2029733, 1839123, 8264312, 378);
    push_row(&mut v, "West Virginia", 1766147, 1793759, 2403821, 429);
    push_row(&mut v, "Hawaii", 1432820, 1455267, 642263, 415);
    push_row(&mut v, "New Hampshire", 1415342, 1377573, 895265, 436);
    push_row(&mut v, "Maine", 1414874, 1363218, 3084292, 449);
    push_row(&mut v, "Montana", 1144694, 1084221, 14554580, 413);
    push_row(&mut v, "Rhode Island", 1114521, 1097357, 103381, 410);
    push_row(&mut v, "Delaware", 1059952, 989950, 194854, 421);
    push_row(&mut v, "South Dakota", 935094, 886656, 7581100, 387);
    push_row(&mut v, "North Dakota", 799358, 779136, 6900080, 367);
    push_row(&mut v, "Alaska", 737270, 733383, 57064095, 363);
    push_row(&mut v, "District of Columbia", 693645, 689544, 6105, 349);
    push_row(&mut v, "Vermont", 644663, 643077, 921666, 439);
    push_row(&mut v, "Wyoming", 588753, 576872, 9709314, 402);
    v
}

/// The report on the whole table.
pub fn render_output() -> (r: String)
    ensures
        r@ == report(states_spec()),
{
    let records = states();
    render_report(&records)
}

} // verus!
