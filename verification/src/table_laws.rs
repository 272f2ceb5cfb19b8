//! The tables of currencies and of units list no code twice: every term is
//! found again by its own code.

use vstd::prelude::*;
use crate::controlled_vocabularies::{CURRENCY_CODES, UNIT_CODES};
use crate::registry::{validates, Term};
use crate::vocabulary::{is_position, Domain, VocabError};

verus! {

/// A number that orders codes of up to three characters as a dictionary
/// does: by the first character, then the second, then the third, a missing
/// character coming before any other.
pub open spec fn rank(code: Seq<char>) -> int {
    let first: int = if code.len() > 0 { code[0] as int + 1 } else { 0 };
    let second: int = if code.len() > 1 { code[1] as int + 1 } else { 0 };
    let third: int = if code.len() > 2 { code[2] as int + 1 } else { 0 };
    (first * 2_000_000 + second) * 2_000_000 + third
}

/// Each code of the table ranks below the next.
pub open spec fn ascends(codes: Seq<&'static str>) -> bool {
    forall|i: int| 0 <= i < codes.len() - 1 ==> rank(#[trigger] codes[i]@) < rank(codes[i + 1]@)
}

/// In a table in ascending order, an earlier code ranks below a later one.
pub proof fn lemma_ascending_ranks(codes: Seq<&'static str>, i: int, j: int)
    requires
        ascends(codes),
        0 <= i < j < codes.len(),
    ensures
        rank(codes[i]@) < rank(codes[j]@),
    decreases j - i,
{
    if i + 1 < j {
        lemma_ascending_ranks(codes, i, j - 1);
    }
    assert(rank(codes[j - 1]@) < rank(codes[j - 1 + 1]@));
}

/// In a table in ascending order, the code at a position is first found at
/// that position.
pub proof fn lemma_ascending_table_is_exact(codes: Seq<&'static str>, i: int)
    requires
        ascends(codes),
        0 <= i < codes.len(),
    ensures
        is_position(codes, codes[i]@, i),
{
    assert forall|j: int| 0 <= j < i implies (#[trigger] codes[j])@ != codes[i]@ by {
        lemma_ascending_ranks(codes, j, i);
    }
}

/// The codes at positions 0 to 25 stand in ascending order.
proof fn lemma_unit_ascend_from_0()
    ensures
        forall|i: int| 0 <= i < 25 ==> rank(#[trigger] UNIT_CODES@[i]@) < rank(UNIT_CODES@[i + 1]@),
{
    reveal_strlit("2N");
    reveal_strlit("3C");
    reveal_strlit("AD");
    reveal_strlit("AMP");
    reveal_strlit("BAR");
    reveal_strlit("BIT");
    reveal_strlit("BQL");
    reveal_strlit("C34");
    reveal_strlit("C45");
    reveal_strlit("CDL");
    reveal_strlit("CEL");
    reveal_strlit("CMK");
    reveal_strlit("CMQ");
    reveal_strlit("CMT");
    reveal_strlit("D30");
    reveal_strlit("E34");
    reveal_strlit("GRM");
    reveal_strlit("GTE");
    reveal_strlit("GWH");
    reveal_strlit("HAR");
    reveal_strlit("HLT");
    reveal_strlit("HTZ");
    reveal_strlit("HUR");
    reveal_strlit("JOU");
    reveal_strlit("KEL");
    reveal_strlit("KGM");
    assert forall|i: int| 0 <= i < 25 implies rank(#[trigger] UNIT_CODES@[i]@) < rank(UNIT_CODES@[i + 1]@) by {
        if i == 0 {
            assert(UNIT_CODES@[0]@ == "2N"@ && UNIT_CODES@[1]@ == "3C"@);
        }         else if i == 1 {
            assert(UNIT_CODES@[1]@ == "3C"@ && UNIT_CODES@[2]@ == "AD"@);
        }         else if i == 2 {
            assert(UNIT_CODES@[2]@ == "AD"@ && UNIT_CODES@[3]@ == "AMP"@);
        }         else if i == 3 {
            assert(UNIT_CODES@[3]@ == "AMP"@ && UNIT_CODES@[4]@ == "BAR"@);
        }         else if i == 4 {
            assert(UNIT_CODES@[4]@ == "BAR"@ && UNIT_CODES@[5]@ == "BIT"@);
        }         else if i == 5 {
            assert(UNIT_CODES@[5]@ == "BIT"@ && UNIT_CODES@[6]@ == "BQL"@);
        }         else if i == 6 {
            assert(UNIT_CODES@[6]@ == "BQL"@ && UNIT_CODES@[7]@ == "C34"@);
        }         else if i == 7 {
            assert(UNIT_CODES@[7]@ == "C34"@ && UNIT_CODES@[8]@ == "C45"@);
        }         else if i == 8 {
            assert(UNIT_CODES@[8]@ == "C45"@ && UNIT_CODES@[9]@ == "CDL"@);
        }         else if i == 9 {
            assert(UNIT_CODES@[9]@ == "CDL"@ && UNIT_CODES@[10]@ == "CEL"@);
        }         else if i == 10 {
            assert(UNIT_CODES@[10]@ == "CEL"@ && UNIT_CODES@[11]@ == "CMK"@);
        }         else if i == 11 {
            assert(UNIT_CODES@[11]@ == "CMK"@ && UNIT_CODES@[12]@ == "CMQ"@);
        }         else if i == 12 {
            assert(UNIT_CODES@[12]@ == "CMQ"@ && UNIT_CODES@[13]@ == "CMT"@);
        }         else if i == 13 {
            assert(UNIT_CODES@[13]@ == "CMT"@ && UNIT_CODES@[14]@ == "D30"@);
        }         else if i == 14 {
            assert(UNIT_CODES@[14]@ == "D30"@ && UNIT_CODES@[15]@ == "E34"@);
        }         else if i == 15 {
            assert(UNIT_CODES@[15]@ == "E34"@ && UNIT_CODES@[16]@ == "GRM"@);
        }         else if i == 16 {
            assert(UNIT_CODES@[16]@ == "GRM"@ && UNIT_CODES@[17]@ == "GTE"@);
        }         else if i == 17 {
            assert(UNIT_CODES@[17]@ == "GTE"@ && UNIT_CODES@[18]@ == "GWH"@);
        }         else if i == 18 {
            assert(UNIT_CODES@[18]@ == "GWH"@ && UNIT_CODES@[19]@ == "HAR"@);
        }         else if i == 19 {
            assert(UNIT_CODES@[19]@ == "HAR"@ && UNIT_CODES@[20]@ == "HLT"@);
        }         else if i == 20 {
            assert(UNIT_CODES@[20]@ == "HLT"@ && UNIT_CODES@[21]@ == "HTZ"@);
        }         else if i == 21 {
            assert(UNIT_CODES@[21]@ == "HTZ"@ && UNIT_CODES@[22]@ == "HUR"@);
        }         else if i == 22 {
            assert(UNIT_CODES@[22]@ == "HUR"@ && UNIT_CODES@[23]@ == "JOU"@);
        }         else if i == 23 {
            assert(UNIT_CODES@[23]@ == "JOU"@ && UNIT_CODES@[24]@ == "KEL"@);
        }         else if i == 24 {
            assert(UNIT_CODES@[24]@ == "KEL"@ && UNIT_CODES@[25]@ == "KGM"@);
        }
    }
}

/// The codes at positions 25 to 48 stand in ascending order.
proof fn lemma_unit_ascend_from_25()
    ensures
        forall|i: int| 25 <= i < 48 ==> rank(#[trigger] UNIT_CODES@[i]@) < rank(UNIT_CODES@[i + 1]@),
{
    reveal_strlit("KGM");
    reveal_strlit("KMH");
    reveal_strlit("KMK");
    reveal_strlit("KTM");
    reveal_strlit("KWH");
    reveal_strlit("KWT");
    reveal_strlit("LH");
    reveal_strlit("LTR");
    reveal_strlit("MAW");
    reveal_strlit("MGM");
    reveal_strlit("MIN");
    reveal_strlit("MLT");
    reveal_strlit("MMT");
    reveal_strlit("MTK");
    reveal_strlit("MTR");
    reveal_strlit("MTS");
    reveal_strlit("NEW");
    reveal_strlit("PAL");
    reveal_strlit("SEC");
    reveal_strlit("TKM");
    reveal_strlit("TNE");
    reveal_strlit("TOE");
    reveal_strlit("VLT");
    reveal_strlit("WTT");
    assert forall|i: int| 25 <= i < 48 implies rank(#[trigger] UNIT_CODES@[i]@) < rank(UNIT_CODES@[i + 1]@) by {
        if i == 25 {
            assert(UNIT_CODES@[25]@ == "KGM"@ && UNIT_CODES@[26]@ == "KMH"@);
        }         else if i == 26 {
            assert(UNIT_CODES@[26]@ == "KMH"@ && UNIT_CODES@[27]@ == "KMK"@);
        }         else if i == 27 {
            assert(UNIT_CODES@[27]@ == "KMK"@ && UNIT_CODES@[28]@ == "KTM"@);
        }         else if i == 28 {
            assert(UNIT_CODES@[28]@ == "KTM"@ && UNIT_CODES@[29]@ == "KWH"@);
        }         else if i == 29 {
            assert(UNIT_CODES@[29]@ == "KWH"@ && UNIT_CODES@[30]@ == "KWT"@);
        }         else if i == 30 {
            assert(UNIT_CODES@[30]@ == "KWT"@ && UNIT_CODES@[31]@ == "LH"@);
        }         else if i == 31 {
            assert(UNIT_CODES@[31]@ == "LH"@ && UNIT_CODES@[32]@ == "LTR"@);
        }         else if i == 32 {
            assert(UNIT_CODES@[32]@ == "LTR"@ && UNIT_CODES@[33]@ == "MAW"@);
        }         else if i == 33 {
            assert(UNIT_CODES@[33]@ == "MAW"@ && UNIT_CODES@[34]@ == "MGM"@);
        }         else if i == 34 {
            assert(UNIT_CODES@[34]@ == "MGM"@ && UNIT_CODES@[35]@ == "MIN"@);
        }         else if i == 35 {
            assert(UNIT_CODES@[35]@ == "MIN"@ && UNIT_CODES@[36]@ == "MLT"@);
        }         else if i == 36 {
            assert(UNIT_CODES@[36]@ == "MLT"@ && UNIT_CODES@[37]@ == "MMT"@);
        }         else if i == 37 {
            assert(UNIT_CODES@[37]@ == "MMT"@ && UNIT_CODES@[38]@ == "MTK"@);
        }         else if i == 38 {
            assert(UNIT_CODES@[38]@ == "MTK"@ && UNIT_CODES@[39]@ == "MTR"@);
        }         else if i == 39 {
            assert(UNIT_CODES@[39]@ == "MTR"@ && UNIT_CODES@[40]@ == "MTS"@);
        }         else if i == 40 {
            assert(UNIT_CODES@[40]@ == "MTS"@ && UNIT_CODES@[41]@ == "NEW"@);
        }         else if i == 41 {
            assert(UNIT_CODES@[41]@ == "NEW"@ && UNIT_CODES@[42]@ == "PAL"@);
        }         else if i == 42 {
            assert(UNIT_CODES@[42]@ == "PAL"@ && UNIT_CODES@[43]@ == "SEC"@);
        }         else if i == 43 {
            assert(UNIT_CODES@[43]@ == "SEC"@ && UNIT_CODES@[44]@ == "TKM"@);
        }         else if i == 44 {
            assert(UNIT_CODES@[44]@ == "TKM"@ && UNIT_CODES@[45]@ == "TNE"@);
        }         else if i == 45 {
            assert(UNIT_CODES@[45]@ == "TNE"@ && UNIT_CODES@[46]@ == "TOE"@);
        }         else if i == 46 {
            assert(UNIT_CODES@[46]@ == "TOE"@ && UNIT_CODES@[47]@ == "VLT"@);
        }         else if i == 47 {
            assert(UNIT_CODES@[47]@ == "VLT"@ && UNIT_CODES@[48]@ == "WTT"@);
        }
    }
}

/// The table of units is in ascending order, so that no code stands in it
/// twice.
pub proof fn lemma_unit_codes_ascend()
    ensures
        ascends(UNIT_CODES@),
{
    lemma_unit_ascend_from_0();
    lemma_unit_ascend_from_25();
}

/// Every unit is found again by its own code: looking up the code at a
/// position of the table gives that position.
pub proof fn law_every_unit_is_found_by_its_code(i: int)
    requires
        0 <= i < UNIT_CODES@.len(),
    ensures
        is_position(UNIT_CODES@, UNIT_CODES@[i]@, i),
{
    lemma_unit_codes_ascend();
    lemma_ascending_table_is_exact(UNIT_CODES@, i);
}

/// The codes at positions 0 to 25 stand in ascending order.
proof fn lemma_currency_ascend_from_0()
    ensures
        forall|i: int| 0 <= i < 25 ==> rank(#[trigger] CURRENCY_CODES@[i]@) < rank(CURRENCY_CODES@[i + 1]@),
{
    reveal_strlit("ADP");
    reveal_strlit("AED");
    reveal_strlit("AFA");
    reveal_strlit("AFN");
    reveal_strlit("ALK");
    reveal_strlit("ALL");
    reveal_strlit("AMD");
    reveal_strlit("ANG");
    reveal_strlit("AOA");
    reveal_strlit("AON");
    reveal_strlit("AOR");
    reveal_strlit("ARA");
    reveal_strlit("ARM");
    reveal_strlit("ARP");
    reveal_strlit("ARS");
    reveal_strlit("ATS");
    reveal_strlit("AUD");
    reveal_strlit("AWG");
    reveal_strlit("AZM");
    reveal_strlit("AZN");
    reveal_strlit("BAM");
    reveal_strlit("BBD");
    reveal_strlit("BDT");
    reveal_strlit("BEF");
    reveal_strlit("BGJ");
    reveal_strlit("BGK");
    assert forall|i: int| 0 <= i < 25 implies rank(#[trigger] CURRENCY_CODES@[i]@) < rank(CURRENCY_CODES@[i + 1]@) by {
        if i == 0 {
            assert(CURRENCY_CODES@[0]@ == "ADP"@ && CURRENCY_CODES@[1]@ == "AED"@);
        }         else if i == 1 {
            assert(CURRENCY_CODES@[1]@ == "AED"@ && CURRENCY_CODES@[2]@ == "AFA"@);
        }         else if i == 2 {
            assert(CURRENCY_CODES@[2]@ == "AFA"@ && CURRENCY_CODES@[3]@ == "AFN"@);
        }         else if i == 3 {
            assert(CURRENCY_CODES@[3]@ == "AFN"@ && CURRENCY_CODES@[4]@ == "ALK"@);
        }         else if i == 4 {
            assert(CURRENCY_CODES@[4]@ == "ALK"@ && CURRENCY_CODES@[5]@ == "ALL"@);
        }         else if i == 5 {
            assert(CURRENCY_CODES@[5]@ == "ALL"@ && CURRENCY_CODES@[6]@ == "AMD"@);
        }         else if i == 6 {
            assert(CURRENCY_CODES@[6]@ == "AMD"@ && CURRENCY_CODES@[7]@ == "ANG"@);
        }         else if i == 7 {
            assert(CURRENCY_CODES@[7]@ == "ANG"@ && CURRENCY_CODES@[8]@ == "AOA"@);
        }         else if i == 8 {
            assert(CURRENCY_CODES@[8]@ == "AOA"@ && CURRENCY_CODES@[9]@ == "AON"@);
        }         else if i == 9 {
            assert(CURRENCY_CODES@[9]@ == "AON"@ && CURRENCY_CODES@[10]@ == "AOR"@);
        }         else if i == 10 {
            assert(CURRENCY_CODES@[10]@ == "AOR"@ && CURRENCY_CODES@[11]@ == "ARA"@);
        }         else if i == 11 {
            assert(CURRENCY_CODES@[11]@ == "ARA"@ && CURRENCY_CODES@[12]@ == "ARM"@);
        }         else if i == 12 {
            assert(CURRENCY_CODES@[12]@ == "ARM"@ && CURRENCY_CODES@[13]@ == "ARP"@);
        }         else if i == 13 {
            assert(CURRENCY_CODES@[13]@ == "ARP"@ && CURRENCY_CODES@[14]@ == "ARS"@);
        }         else if i == 14 {
            assert(CURRENCY_CODES@[14]@ == "ARS"@ && CURRENCY_CODES@[15]@ == "ATS"@);
        }         else if i == 15 {
            assert(CURRENCY_CODES@[15]@ == "ATS"@ && CURRENCY_CODES@[16]@ == "AUD"@);
        }         else if i == 16 {
            assert(CURRENCY_CODES@[16]@ == "AUD"@ && CURRENCY_CODES@[17]@ == "AWG"@);
        }         else if i == 17 {
            assert(CURRENCY_CODES@[17]@ == "AWG"@ && CURRENCY_CODES@[18]@ == "AZM"@);
        }         else if i == 18 {
            assert(CURRENCY_CODES@[18]@ == "AZM"@ && CURRENCY_CODES@[19]@ == "AZN"@);
        }         else if i == 19 {
            assert(CURRENCY_CODES@[19]@ == "AZN"@ && CURRENCY_CODES@[20]@ == "BAM"@);
        }         else if i == 20 {
            assert(CURRENCY_CODES@[20]@ == "BAM"@ && CURRENCY_CODES@[21]@ == "BBD"@);
        }         else if i == 21 {
            assert(CURRENCY_CODES@[21]@ == "BBD"@ && CURRENCY_CODES@[22]@ == "BDT"@);
        }         else if i == 22 {
            assert(CURRENCY_CODES@[22]@ == "BDT"@ && CURRENCY_CODES@[23]@ == "BEF"@);
        }         else if i == 23 {
            assert(CURRENCY_CODES@[23]@ == "BEF"@ && CURRENCY_CODES@[24]@ == "BGJ"@);
        }         else if i == 24 {
            assert(CURRENCY_CODES@[24]@ == "BGJ"@ && CURRENCY_CODES@[25]@ == "BGK"@);
        }
    }
}

/// The codes at positions 25 to 50 stand in ascending order.
proof fn lemma_currency_ascend_from_25()
    ensures
        forall|i: int| 25 <= i < 50 ==> rank(#[trigger] CURRENCY_CODES@[i]@) < rank(CURRENCY_CODES@[i + 1]@),
{
    reveal_strlit("BGK");
    reveal_strlit("BGL");
    reveal_strlit("BGN");
    reveal_strlit("BHD");
    reveal_strlit("BIF");
    reveal_strlit("BMD");
    reveal_strlit("BND");
    reveal_strlit("BOB");
    reveal_strlit("BOP");
    reveal_strlit("BOV");
    reveal_strlit("BRB");
    reveal_strlit("BRC");
    reveal_strlit("BRE");
    reveal_strlit("BRL");
    reveal_strlit("BRN");
    reveal_strlit("BRR");
    reveal_strlit("BRZ");
    reveal_strlit("BSD");
    reveal_strlit("BTN");
    reveal_strlit("BWP");
    reveal_strlit("BYN");
    reveal_strlit("BYR");
    reveal_strlit("BZD");
    reveal_strlit("CAD");
    reveal_strlit("CDF");
    reveal_strlit("CHE");
    assert forall|i: int| 25 <= i < 50 implies rank(#[trigger] CURRENCY_CODES@[i]@) < rank(CURRENCY_CODES@[i + 1]@) by {
        if i == 25 {
            assert(CURRENCY_CODES@[25]@ == "BGK"@ && CURRENCY_CODES@[26]@ == "BGL"@);
        }         else if i == 26 {
            assert(CURRENCY_CODES@[26]@ == "BGL"@ && CURRENCY_CODES@[27]@ == "BGN"@);
        }         else if i == 27 {
            assert(CURRENCY_CODES@[27]@ == "BGN"@ && CURRENCY_CODES@[28]@ == "BHD"@);
        }         else if i == 28 {
            assert(CURRENCY_CODES@[28]@ == "BHD"@ && CURRENCY_CODES@[29]@ == "BIF"@);
        }         else if i == 29 {
            assert(CURRENCY_CODES@[29]@ == "BIF"@ && CURRENCY_CODES@[30]@ == "BMD"@);
        }         else if i == 30 {
            assert(CURRENCY_CODES@[30]@ == "BMD"@ && CURRENCY_CODES@[31]@ == "BND"@);
        }         else if i == 31 {
            assert(CURRENCY_CODES@[31]@ == "BND"@ && CURRENCY_CODES@[32]@ == "BOB"@);
        }         else if i == 32 {
            assert(CURRENCY_CODES@[32]@ == "BOB"@ && CURRENCY_CODES@[33]@ == "BOP"@);
        }         else if i == 33 {
            assert(CURRENCY_CODES@[33]@ == "BOP"@ && CURRENCY_CODES@[34]@ == "BOV"@);
        }         else if i == 34 {
            assert(CURRENCY_CODES@[34]@ == "BOV"@ && CURRENCY_CODES@[35]@ == "BRB"@);
        }         else if i == 35 {
            assert(CURRENCY_CODES@[35]@ == "BRB"@ && CURRENCY_CODES@[36]@ == "BRC"@);
        }         else if i == 36 {
            assert(CURRENCY_CODES@[36]@ == "BRC"@ && CURRENCY_CODES@[37]@ == "BRE"@);
        }         else if i == 37 {
            assert(CURRENCY_CODES@[37]@ == "BRE"@ && CURRENCY_CODES@[38]@ == "BRL"@);
        }         else if i == 38 {
            assert(CURRENCY_CODES@[38]@ == "BRL"@ && CURRENCY_CODES@[39]@ == "BRN"@);
        }         else if i == 39 {
            assert(CURRENCY_CODES@[39]@ == "BRN"@ && CURRENCY_CODES@[40]@ == "BRR"@);
        }         else if i == 40 {
            assert(CURRENCY_CODES@[40]@ == "BRR"@ && CURRENCY_CODES@[41]@ == "BRZ"@);
        }         else if i == 41 {
            assert(CURRENCY_CODES@[41]@ == "BRZ"@ && CURRENCY_CODES@[42]@ == "BSD"@);
        }         else if i == 42 {
            assert(CURRENCY_CODES@[42]@ == "BSD"@ && CURRENCY_CODES@[43]@ == "BTN"@);
        }         else if i == 43 {
            assert(CURRENCY_CODES@[43]@ == "BTN"@ && CURRENCY_CODES@[44]@ == "BWP"@);
        }         else if i == 44 {
            assert(CURRENCY_CODES@[44]@ == "BWP"@ && CURRENCY_CODES@[45]@ == "BYN"@);
        }         else if i == 45 {
            assert(CURRENCY_CODES@[45]@ == "BYN"@ && CURRENCY_CODES@[46]@ == "BYR"@);
        }         else if i == 46 {
            assert(CURRENCY_CODES@[46]@ == "BYR"@ && CURRENCY_CODES@[47]@ == "BZD"@);
        }         else if i == 47 {
            assert(CURRENCY_CODES@[47]@ == "BZD"@ && CURRENCY_CODES@[48]@ == "CAD"@);
        }         else if i == 48 {
            assert(CURRENCY_CODES@[48]@ == "CAD"@ && CURRENCY_CODES@[49]@ == "CDF"@);
        }         else if i == 49 {
            assert(CURRENCY_CODES@[49]@ == "CDF"@ && CURRENCY_CODES@[50]@ == "CHE"@);
        }
    }
}

/// The codes at positions 50 to 75 stand in ascending order.
proof fn lemma_currency_ascend_from_50()
    ensures
        forall|i: int| 50 <= i < 75 ==> rank(#[trigger] CURRENCY_CODES@[i]@) < rank(CURRENCY_CODES@[i + 1]@),
{
    reveal_strlit("CHE");
    reveal_strlit("CHF");
    reveal_strlit("CHW");
    reveal_strlit("CLE");
    reveal_strlit("CLF");
    reveal_strlit("CLP");
    reveal_strlit("CNY");
    reveal_strlit("COP");
    reveal_strlit("COU");
    reveal_strlit("CRC");
    reveal_strlit("CSJ");
    reveal_strlit("CSK");
    reveal_strlit("CUC");
    reveal_strlit("CUP");
    reveal_strlit("CVE");
    reveal_strlit("CYP");
    reveal_strlit("CZK");
    reveal_strlit("DDM");
    reveal_strlit("DEM");
    reveal_strlit("DJF");
    reveal_strlit("DKK");
    reveal_strlit("DOP");
    reveal_strlit("DZD");
    reveal_strlit("ECS");
    reveal_strlit("EEK");
    reveal_strlit("EGP");
    assert forall|i: int| 50 <= i < 75 implies rank(#[trigger] CURRENCY_CODES@[i]@) < rank(CURRENCY_CODES@[i + 1]@) by {
        if i == 50 {
            assert(CURRENCY_CODES@[50]@ == "CHE"@ && CURRENCY_CODES@[51]@ == "CHF"@);
        }         else if i == 51 {
            assert(CURRENCY_CODES@[51]@ == "CHF"@ && CURRENCY_CODES@[52]@ == "CHW"@);
        }         else if i == 52 {
            assert(CURRENCY_CODES@[52]@ == "CHW"@ && CURRENCY_CODES@[53]@ == "CLE"@);
        }         else if i == 53 {
            assert(CURRENCY_CODES@[53]@ == "CLE"@ && CURRENCY_CODES@[54]@ == "CLF"@);
        }         else if i == 54 {
            assert(CURRENCY_CODES@[54]@ == "CLF"@ && CURRENCY_CODES@[55]@ == "CLP"@);
        }         else if i == 55 {
            assert(CURRENCY_CODES@[55]@ == "CLP"@ && CURRENCY_CODES@[56]@ == "CNY"@);
        }         else if i == 56 {
            assert(CURRENCY_CODES@[56]@ == "CNY"@ && CURRENCY_CODES@[57]@ == "COP"@);
        }         else if i == 57 {
            assert(CURRENCY_CODES@[57]@ == "COP"@ && CURRENCY_CODES@[58]@ == "COU"@);
        }         else if i == 58 {
            assert(CURRENCY_CODES@[58]@ == "COU"@ && CURRENCY_CODES@[59]@ == "CRC"@);
        }         else if i == 59 {
            assert(CURRENCY_CODES@[59]@ == "CRC"@ && CURRENCY_CODES@[60]@ == "CSJ"@);
        }         else if i == 60 {
            assert(CURRENCY_CODES@[60]@ == "CSJ"@ && CURRENCY_CODES@[61]@ == "CSK"@);
        }         else if i == 61 {
            assert(CURRENCY_CODES@[61]@ == "CSK"@ && CURRENCY_CODES@[62]@ == "CUC"@);
        }         else if i == 62 {
            assert(CURRENCY_CODES@[62]@ == "CUC"@ && CURRENCY_CODES@[63]@ == "CUP"@);
        }         else if i == 63 {
            assert(CURRENCY_CODES@[63]@ == "CUP"@ && CURRENCY_CODES@[64]@ == "CVE"@);
        }         else if i == 64 {
            assert(CURRENCY_CODES@[64]@ == "CVE"@ && CURRENCY_CODES@[65]@ == "CYP"@);
        }         else if i == 65 {
            assert(CURRENCY_CODES@[65]@ == "CYP"@ && CURRENCY_CODES@[66]@ == "CZK"@);
        }         else if i == 66 {
            assert(CURRENCY_CODES@[66]@ == "CZK"@ && CURRENCY_CODES@[67]@ == "DDM"@);
        }         else if i == 67 {
            assert(CURRENCY_CODES@[67]@ == "DDM"@ && CURRENCY_CODES@[68]@ == "DEM"@);
        }         else if i == 68 {
            assert(CURRENCY_CODES@[68]@ == "DEM"@ && CURRENCY_CODES@[69]@ == "DJF"@);
        }         else if i == 69 {
            assert(CURRENCY_CODES@[69]@ == "DJF"@ && CURRENCY_CODES@[70]@ == "DKK"@);
        }         else if i == 70 {
            assert(CURRENCY_CODES@[70]@ == "DKK"@ && CURRENCY_CODES@[71]@ == "DOP"@);
        }         else if i == 71 {
            assert(CURRENCY_CODES@[71]@ == "DOP"@ && CURRENCY_CODES@[72]@ == "DZD"@);
        }         else if i == 72 {
            assert(CURRENCY_CODES@[72]@ == "DZD"@ && CURRENCY_CODES@[73]@ == "ECS"@);
        }         else if i == 73 {
            assert(CURRENCY_CODES@[73]@ == "ECS"@ && CURRENCY_CODES@[74]@ == "EEK"@);
        }         else if i == 74 {
            assert(CURRENCY_CODES@[74]@ == "EEK"@ && CURRENCY_CODES@[75]@ == "EGP"@);
        }
    }
}

/// The codes at positions 75 to 100 stand in ascending order.
proof fn lemma_currency_ascend_from_75()
    ensures
        forall|i: int| 75 <= i < 100 ==> rank(#[trigger] CURRENCY_CODES@[i]@) < rank(CURRENCY_CODES@[i + 1]@),
{
    reveal_strlit("EGP");
    reveal_strlit("ERN");
    reveal_strlit("ESP");
    reveal_strlit("ETB");
    reveal_strlit("EUR");
    reveal_strlit("FIM");
    reveal_strlit("FJD");
    reveal_strlit("FKP");
    reveal_strlit("FRF");
    reveal_strlit("GBP");
    reveal_strlit("GEL");
    reveal_strlit("GHC");
    reveal_strlit("GHS");
    reveal_strlit("GIP");
    reveal_strlit("GMD");
    reveal_strlit("GNE");
    reveal_strlit("GNF");
    reveal_strlit("GQE");
    reveal_strlit("GRD");
    reveal_strlit("GTQ");
    reveal_strlit("GWP");
    reveal_strlit("GYD");
    reveal_strlit("HKD");
    reveal_strlit("HNL");
    reveal_strlit("HRK");
    reveal_strlit("HTG");
    assert forall|i: int| 75 <= i < 100 implies rank(#[trigger] CURRENCY_CODES@[i]@) < rank(CURRENCY_CODES@[i + 1]@) by {
        if i == 75 {
            assert(CURRENCY_CODES@[75]@ == "EGP"@ && CURRENCY_CODES@[76]@ == "ERN"@);
        }         else if i == 76 {
            assert(CURRENCY_CODES@[76]@ == "ERN"@ && CURRENCY_CODES@[77]@ == "ESP"@);
        }         else if i == 77 {
            assert(CURRENCY_CODES@[77]@ == "ESP"@ && CURRENCY_CODES@[78]@ == "ETB"@);
        }         else if i == 78 {
            assert(CURRENCY_CODES@[78]@ == "ETB"@ && CURRENCY_CODES@[79]@ == "EUR"@);
        }         else if i == 79 {
            assert(CURRENCY_CODES@[79]@ == "EUR"@ && CURRENCY_CODES@[80]@ == "FIM"@);
        }         else if i == 80 {
            assert(CURRENCY_CODES@[80]@ == "FIM"@ && CURRENCY_CODES@[81]@ == "FJD"@);
        }         else if i == 81 {
            assert(CURRENCY_CODES@[81]@ == "FJD"@ && CURRENCY_CODES@[82]@ == "FKP"@);
        }         else if i == 82 {
            assert(CURRENCY_CODES@[82]@ == "FKP"@ && CURRENCY_CODES@[83]@ == "FRF"@);
        }         else if i == 83 {
            assert(CURRENCY_CODES@[83]@ == "FRF"@ && CURRENCY_CODES@[84]@ == "GBP"@);
        }         else if i == 84 {
            assert(CURRENCY_CODES@[84]@ == "GBP"@ && CURRENCY_CODES@[85]@ == "GEL"@);
        }         else if i == 85 {
            assert(CURRENCY_CODES@[85]@ == "GEL"@ && CURRENCY_CODES@[86]@ == "GHC"@);
        }         else if i == 86 {
            assert(CURRENCY_CODES@[86]@ == "GHC"@ && CURRENCY_CODES@[87]@ == "GHS"@);
        }         else if i == 87 {
            assert(CURRENCY_CODES@[87]@ == "GHS"@ && CURRENCY_CODES@[88]@ == "GIP"@);
        }         else if i == 88 {
            assert(CURRENCY_CODES@[88]@ == "GIP"@ && CURRENCY_CODES@[89]@ == "GMD"@);
        }         else if i == 89 {
            assert(CURRENCY_CODES@[89]@ == "GMD"@ && CURRENCY_CODES@[90]@ == "GNE"@);
        }         else if i == 90 {
            assert(CURRENCY_CODES@[90]@ == "GNE"@ && CURRENCY_CODES@[91]@ == "GNF"@);
        }         else if i == 91 {
            assert(CURRENCY_CODES@[91]@ == "GNF"@ && CURRENCY_CODES@[92]@ == "GQE"@);
        }         else if i == 92 {
            assert(CURRENCY_CODES@[92]@ == "GQE"@ && CURRENCY_CODES@[93]@ == "GRD"@);
        }         else if i == 93 {
            assert(CURRENCY_CODES@[93]@ == "GRD"@ && CURRENCY_CODES@[94]@ == "GTQ"@);
        }         else if i == 94 {
            assert(CURRENCY_CODES@[94]@ == "GTQ"@ && CURRENCY_CODES@[95]@ == "GWP"@);
        }         else if i == 95 {
            assert(CURRENCY_CODES@[95]@ == "GWP"@ && CURRENCY_CODES@[96]@ == "GYD"@);
        }         else if i == 96 {
            assert(CURRENCY_CODES@[96]@ == "GYD"@ && CURRENCY_CODES@[97]@ == "HKD"@);
        }         else if i == 97 {
            assert(CURRENCY_CODES@[97]@ == "HKD"@ && CURRENCY_CODES@[98]@ == "HNL"@);
        }         else if i == 98 {
            assert(CURRENCY_CODES@[98]@ == "HNL"@ && CURRENCY_CODES@[99]@ == "HRK"@);
        }         else if i == 99 {
            assert(CURRENCY_CODES@[99]@ == "HRK"@ && CURRENCY_CODES@[100]@ == "HTG"@);
        }
    }
}

/// The codes at positions 100 to 125 stand in ascending order.
proof fn lemma_currency_ascend_from_100()
    ensures
        forall|i: int| 100 <= i < 125 ==> rank(#[trigger] CURRENCY_CODES@[i]@) < rank(CURRENCY_CODES@[i + 1]@),
{
    reveal_strlit("HTG");
    reveal_strlit("HUF");
    reveal_strlit("IDR");
    reveal_strlit("IEP");
    reveal_strlit("ILP");
    reveal_strlit("ILR");
    reveal_strlit("ILS");
    reveal_strlit("INR");
    reveal_strlit("IQD");
    reveal_strlit("IRR");
    reveal_strlit("ISJ");
    reveal_strlit("ISK");
    reveal_strlit("ITL");
    reveal_strlit("JMD");
    reveal_strlit("JOD");
    reveal_strlit("JPY");
    reveal_strlit("KES");
    reveal_strlit("KGS");
    reveal_strlit("KHR");
    reveal_strlit("KMF");
    reveal_strlit("KPW");
    reveal_strlit("KRW");
    reveal_strlit("KWD");
    reveal_strlit("KYD");
    reveal_strlit("KZT");
    reveal_strlit("LAJ");
    assert forall|i: int| 100 <= i < 125 implies rank(#[trigger] CURRENCY_CODES@[i]@) < rank(CURRENCY_CODES@[i + 1]@) by {
        if i == 100 {
            assert(CURRENCY_CODES@[100]@ == "HTG"@ && CURRENCY_CODES@[101]@ == "HUF"@);
        }         else if i == 101 {
            assert(CURRENCY_CODES@[101]@ == "HUF"@ && CURRENCY_CODES@[102]@ == "IDR"@);
        }         else if i == 102 {
            assert(CURRENCY_CODES@[102]@ == "IDR"@ && CURRENCY_CODES@[103]@ == "IEP"@);
        }         else if i == 103 {
            assert(CURRENCY_CODES@[103]@ == "IEP"@ && CURRENCY_CODES@[104]@ == "ILP"@);
        }         else if i == 104 {
            assert(CURRENCY_CODES@[104]@ == "ILP"@ && CURRENCY_CODES@[105]@ == "ILR"@);
        }         else if i == 105 {
            assert(CURRENCY_CODES@[105]@ == "ILR"@ && CURRENCY_CODES@[106]@ == "ILS"@);
        }         else if i == 106 {
            assert(CURRENCY_CODES@[106]@ == "ILS"@ && CURRENCY_CODES@[107]@ == "INR"@);
        }         else if i == 107 {
            assert(CURRENCY_CODES@[107]@ == "INR"@ && CURRENCY_CODES@[108]@ == "IQD"@);
        }         else if i == 108 {
            assert(CURRENCY_CODES@[108]@ == "IQD"@ && CURRENCY_CODES@[109]@ == "IRR"@);
        }         else if i == 109 {
            assert(CURRENCY_CODES@[109]@ == "IRR"@ && CURRENCY_CODES@[110]@ == "ISJ"@);
        }         else if i == 110 {
            assert(CURRENCY_CODES@[110]@ == "ISJ"@ && CURRENCY_CODES@[111]@ == "ISK"@);
        }         else if i == 111 {
            assert(CURRENCY_CODES@[111]@ == "ISK"@ && CURRENCY_CODES@[112]@ == "ITL"@);
        }         else if i == 112 {
            assert(CURRENCY_CODES@[112]@ == "ITL"@ && CURRENCY_CODES@[113]@ == "JMD"@);
        }         else if i == 113 {
            assert(CURRENCY_CODES@[113]@ == "JMD"@ && CURRENCY_CODES@[114]@ == "JOD"@);
        }         else if i == 114 {
            assert(CURRENCY_CODES@[114]@ == "JOD"@ && CURRENCY_CODES@[115]@ == "JPY"@);
        }         else if i == 115 {
            assert(CURRENCY_CODES@[115]@ == "JPY"@ && CURRENCY_CODES@[116]@ == "KES"@);
        }         else if i == 116 {
            assert(CURRENCY_CODES@[116]@ == "KES"@ && CURRENCY_CODES@[117]@ == "KGS"@);
        }         else if i == 117 {
            assert(CURRENCY_CODES@[117]@ == "KGS"@ && CURRENCY_CODES@[118]@ == "KHR"@);
        }         else if i == 118 {
            assert(CURRENCY_CODES@[118]@ == "KHR"@ && CURRENCY_CODES@[119]@ == "KMF"@);
        }         else if i == 119 {
            assert(CURRENCY_CODES@[119]@ == "KMF"@ && CURRENCY_CODES@[120]@ == "KPW"@);
        }         else if i == 120 {
            assert(CURRENCY_CODES@[120]@ == "KPW"@ && CURRENCY_CODES@[121]@ == "KRW"@);
        }         else if i == 121 {
            assert(CURRENCY_CODES@[121]@ == "KRW"@ && CURRENCY_CODES@[122]@ == "KWD"@);
        }         else if i == 122 {
            assert(CURRENCY_CODES@[122]@ == "KWD"@ && CURRENCY_CODES@[123]@ == "KYD"@);
        }         else if i == 123 {
            assert(CURRENCY_CODES@[123]@ == "KYD"@ && CURRENCY_CODES@[124]@ == "KZT"@);
        }         else if i == 124 {
            assert(CURRENCY_CODES@[124]@ == "KZT"@ && CURRENCY_CODES@[125]@ == "LAJ"@);
        }
    }
}

/// The codes at positions 125 to 150 stand in ascending order.
proof fn lemma_currency_ascend_from_125()
    ensures
        forall|i: int| 125 <= i < 150 ==> rank(#[trigger] CURRENCY_CODES@[i]@) < rank(CURRENCY_CODES@[i + 1]@),
{
    reveal_strlit("LAJ");
    reveal_strlit("LAK");
    reveal_strlit("LBP");
    reveal_strlit("LKR");
    reveal_strlit("LRD");
    reveal_strlit("LSL");
    reveal_strlit("LTL");
    reveal_strlit("LUF");
    reveal_strlit("LVL");
    reveal_strlit("LYD");
    reveal_strlit("MAD");
    reveal_strlit("MDL");
    reveal_strlit("MGA");
    reveal_strlit("MGF");
    reveal_strlit("MKD");
    reveal_strlit("MLF");
    reveal_strlit("MMK");
    reveal_strlit("MNT");
    reveal_strlit("MOP");
    reveal_strlit("MRO");
    reveal_strlit("MRU");
    reveal_strlit("MTL");
    reveal_strlit("MTP");
    reveal_strlit("MUR");
    reveal_strlit("MVQ");
    reveal_strlit("MVR");
    assert forall|i: int| 125 <= i < 150 implies rank(#[trigger] CURRENCY_CODES@[i]@) < rank(CURRENCY_CODES@[i + 1]@) by {
        if i == 125 {
            assert(CURRENCY_CODES@[125]@ == "LAJ"@ && CURRENCY_CODES@[126]@ == "LAK"@);
        }         else if i == 126 {
            assert(CURRENCY_CODES@[126]@ == "LAK"@ && CURRENCY_CODES@[127]@ == "LBP"@);
        }         else if i == 127 {
            assert(CURRENCY_CODES@[127]@ == "LBP"@ && CURRENCY_CODES@[128]@ == "LKR"@);
        }         else if i == 128 {
            assert(CURRENCY_CODES@[128]@ == "LKR"@ && CURRENCY_CODES@[129]@ == "LRD"@);
        }         else if i == 129 {
            assert(CURRENCY_CODES@[129]@ == "LRD"@ && CURRENCY_CODES@[130]@ == "LSL"@);
        }         else if i == 130 {
            assert(CURRENCY_CODES@[130]@ == "LSL"@ && CURRENCY_CODES@[131]@ == "LTL"@);
        }         else if i == 131 {
            assert(CURRENCY_CODES@[131]@ == "LTL"@ && CURRENCY_CODES@[132]@ == "LUF"@);
        }         else if i == 132 {
            assert(CURRENCY_CODES@[132]@ == "LUF"@ && CURRENCY_CODES@[133]@ == "LVL"@);
        }         else if i == 133 {
            assert(CURRENCY_CODES@[133]@ == "LVL"@ && CURRENCY_CODES@[134]@ == "LYD"@);
        }         else if i == 134 {
            assert(CURRENCY_CODES@[134]@ == "LYD"@ && CURRENCY_CODES@[135]@ == "MAD"@);
        }         else if i == 135 {
            assert(CURRENCY_CODES@[135]@ == "MAD"@ && CURRENCY_CODES@[136]@ == "MDL"@);
        }         else if i == 136 {
            assert(CURRENCY_CODES@[136]@ == "MDL"@ && CURRENCY_CODES@[137]@ == "MGA"@);
        }         else if i == 137 {
            assert(CURRENCY_CODES@[137]@ == "MGA"@ && CURRENCY_CODES@[138]@ == "MGF"@);
        }         else if i == 138 {
            assert(CURRENCY_CODES@[138]@ == "MGF"@ && CURRENCY_CODES@[139]@ == "MKD"@);
        }         else if i == 139 {
            assert(CURRENCY_CODES@[139]@ == "MKD"@ && CURRENCY_CODES@[140]@ == "MLF"@);
        }         else if i == 140 {
            assert(CURRENCY_CODES@[140]@ == "MLF"@ && CURRENCY_CODES@[141]@ == "MMK"@);
        }         else if i == 141 {
            assert(CURRENCY_CODES@[141]@ == "MMK"@ && CURRENCY_CODES@[142]@ == "MNT"@);
        }         else if i == 142 {
            assert(CURRENCY_CODES@[142]@ == "MNT"@ && CURRENCY_CODES@[143]@ == "MOP"@);
        }         else if i == 143 {
            assert(CURRENCY_CODES@[143]@ == "MOP"@ && CURRENCY_CODES@[144]@ == "MRO"@);
        }         else if i == 144 {
            assert(CURRENCY_CODES@[144]@ == "MRO"@ && CURRENCY_CODES@[145]@ == "MRU"@);
        }         else if i == 145 {
            assert(CURRENCY_CODES@[145]@ == "MRU"@ && CURRENCY_CODES@[146]@ == "MTL"@);
        }         else if i == 146 {
            assert(CURRENCY_CODES@[146]@ == "MTL"@ && CURRENCY_CODES@[147]@ == "MTP"@);
        }         else if i == 147 {
            assert(CURRENCY_CODES@[147]@ == "MTP"@ && CURRENCY_CODES@[148]@ == "MUR"@);
        }         else if i == 148 {
            assert(CURRENCY_CODES@[148]@ == "MUR"@ && CURRENCY_CODES@[149]@ == "MVQ"@);
        }         else if i == 149 {
            assert(CURRENCY_CODES@[149]@ == "MVQ"@ && CURRENCY_CODES@[150]@ == "MVR"@);
        }
    }
}

/// The codes at positions 150 to 175 stand in ascending order.
proof fn lemma_currency_ascend_from_150()
    ensures
        forall|i: int| 150 <= i < 175 ==> rank(#[trigger] CURRENCY_CODES@[i]@) < rank(CURRENCY_CODES@[i + 1]@),
{
    reveal_strlit("MVR");
    reveal_strlit("MWK");
    reveal_strlit("MXN");
    reveal_strlit("MXP");
    reveal_strlit("MXV");
    reveal_strlit("MYR");
    reveal_strlit("MZM");
    reveal_strlit("MZN");
    reveal_strlit("NAD");
    reveal_strlit("NFD");
    reveal_strlit("NGN");
    reveal_strlit("NIO");
    reveal_strlit("NLG");
    reveal_strlit("NOK");
    reveal_strlit("NPR");
    reveal_strlit("NZD");
    reveal_strlit("OMR");
    reveal_strlit("PAB");
    reveal_strlit("PEH");
    reveal_strlit("PEI");
    reveal_strlit("PEN");
    reveal_strlit("PGK");
    reveal_strlit("PHP");
    reveal_strlit("PKR");
    reveal_strlit("PLN");
    reveal_strlit("PLZ");
    assert forall|i: int| 150 <= i < 175 implies rank(#[trigger] CURRENCY_CODES@[i]@) < rank(CURRENCY_CODES@[i + 1]@) by {
        if i == 150 {
            assert(CURRENCY_CODES@[150]@ == "MVR"@ && CURRENCY_CODES@[151]@ == "MWK"@);
        }         else if i == 151 {
            assert(CURRENCY_CODES@[151]@ == "MWK"@ && CURRENCY_CODES@[152]@ == "MXN"@);
        }         else if i == 152 {
            assert(CURRENCY_CODES@[152]@ == "MXN"@ && CURRENCY_CODES@[153]@ == "MXP"@);
        }         else if i == 153 {
            assert(CURRENCY_CODES@[153]@ == "MXP"@ && CURRENCY_CODES@[154]@ == "MXV"@);
        }         else if i == 154 {
            assert(CURRENCY_CODES@[154]@ == "MXV"@ && CURRENCY_CODES@[155]@ == "MYR"@);
        }         else if i == 155 {
            assert(CURRENCY_CODES@[155]@ == "MYR"@ && CURRENCY_CODES@[156]@ == "MZM"@);
        }         else if i == 156 {
            assert(CURRENCY_CODES@[156]@ == "MZM"@ && CURRENCY_CODES@[157]@ == "MZN"@);
        }         else if i == 157 {
            assert(CURRENCY_CODES@[157]@ == "MZN"@ && CURRENCY_CODES@[158]@ == "NAD"@);
        }         else if i == 158 {
            assert(CURRENCY_CODES@[158]@ == "NAD"@ && CURRENCY_CODES@[159]@ == "NFD"@);
        }         else if i == 159 {
            assert(CURRENCY_CODES@[159]@ == "NFD"@ && CURRENCY_CODES@[160]@ == "NGN"@);
        }         else if i == 160 {
            assert(CURRENCY_CODES@[160]@ == "NGN"@ && CURRENCY_CODES@[161]@ == "NIO"@);
        }         else if i == 161 {
            assert(CURRENCY_CODES@[161]@ == "NIO"@ && CURRENCY_CODES@[162]@ == "NLG"@);
        }         else if i == 162 {
            assert(CURRENCY_CODES@[162]@ == "NLG"@ && CURRENCY_CODES@[163]@ == "NOK"@);
        }         else if i == 163 {
            assert(CURRENCY_CODES@[163]@ == "NOK"@ && CURRENCY_CODES@[164]@ == "NPR"@);
        }         else if i == 164 {
            assert(CURRENCY_CODES@[164]@ == "NPR"@ && CURRENCY_CODES@[165]@ == "NZD"@);
        }         else if i == 165 {
            assert(CURRENCY_CODES@[165]@ == "NZD"@ && CURRENCY_CODES@[166]@ == "OMR"@);
        }         else if i == 166 {
            assert(CURRENCY_CODES@[166]@ == "OMR"@ && CURRENCY_CODES@[167]@ == "PAB"@);
        }         else if i == 167 {
            assert(CURRENCY_CODES@[167]@ == "PAB"@ && CURRENCY_CODES@[168]@ == "PEH"@);
        }         else if i == 168 {
            assert(CURRENCY_CODES@[168]@ == "PEH"@ && CURRENCY_CODES@[169]@ == "PEI"@);
        }         else if i == 169 {
            assert(CURRENCY_CODES@[169]@ == "PEI"@ && CURRENCY_CODES@[170]@ == "PEN"@);
        }         else if i == 170 {
            assert(CURRENCY_CODES@[170]@ == "PEN"@ && CURRENCY_CODES@[171]@ == "PGK"@);
        }         else if i == 171 {
            assert(CURRENCY_CODES@[171]@ == "PGK"@ && CURRENCY_CODES@[172]@ == "PHP"@);
        }         else if i == 172 {
            assert(CURRENCY_CODES@[172]@ == "PHP"@ && CURRENCY_CODES@[173]@ == "PKR"@);
        }         else if i == 173 {
            assert(CURRENCY_CODES@[173]@ == "PKR"@ && CURRENCY_CODES@[174]@ == "PLN"@);
        }         else if i == 174 {
            assert(CURRENCY_CODES@[174]@ == "PLN"@ && CURRENCY_CODES@[175]@ == "PLZ"@);
        }
    }
}

/// The codes at positions 175 to 200 stand in ascending order.
proof fn lemma_currency_ascend_from_175()
    ensures
        forall|i: int| 175 <= i < 200 ==> rank(#[trigger] CURRENCY_CODES@[i]@) < rank(CURRENCY_CODES@[i + 1]@),
{
    reveal_strlit("PLZ");
    reveal_strlit("PTE");
    reveal_strlit("PYG");
    reveal_strlit("QAR");
    reveal_strlit("ROL");
    reveal_strlit("RON");
    reveal_strlit("RSD");
    reveal_strlit("RUB");
    reveal_strlit("RUR");
    reveal_strlit("RWF");
    reveal_strlit("SAR");
    reveal_strlit("SBD");
    reveal_strlit("SCR");
    reveal_strlit("SDD");
    reveal_strlit("SDG");
    reveal_strlit("SEK");
    reveal_strlit("SGD");
    reveal_strlit("SHP");
    reveal_strlit("SIT");
    reveal_strlit("SKK");
    reveal_strlit("SLL");
    reveal_strlit("SOS");
    reveal_strlit("SRD");
    reveal_strlit("SRG");
    reveal_strlit("SSP");
    reveal_strlit("STD");
    assert forall|i: int| 175 <= i < 200 implies rank(#[trigger] CURRENCY_CODES@[i]@) < rank(CURRENCY_CODES@[i + 1]@) by {
        if i == 175 {
            assert(CURRENCY_CODES@[175]@ == "PLZ"@ && CURRENCY_CODES@[176]@ == "PTE"@);
        }         else if i == 176 {
            assert(CURRENCY_CODES@[176]@ == "PTE"@ && CURRENCY_CODES@[177]@ == "PYG"@);
        }         else if i == 177 {
            assert(CURRENCY_CODES@[177]@ == "PYG"@ && CURRENCY_CODES@[178]@ == "QAR"@);
        }         else if i == 178 {
            assert(CURRENCY_CODES@[178]@ == "QAR"@ && CURRENCY_CODES@[179]@ == "ROL"@);
        }         else if i == 179 {
            assert(CURRENCY_CODES@[179]@ == "ROL"@ && CURRENCY_CODES@[180]@ == "RON"@);
        }         else if i == 180 {
            assert(CURRENCY_CODES@[180]@ == "RON"@ && CURRENCY_CODES@[181]@ == "RSD"@);
        }         else if i == 181 {
            assert(CURRENCY_CODES@[181]@ == "RSD"@ && CURRENCY_CODES@[182]@ == "RUB"@);
        }         else if i == 182 {
            assert(CURRENCY_CODES@[182]@ == "RUB"@ && CURRENCY_CODES@[183]@ == "RUR"@);
        }         else if i == 183 {
            assert(CURRENCY_CODES@[183]@ == "RUR"@ && CURRENCY_CODES@[184]@ == "RWF"@);
        }         else if i == 184 {
            assert(CURRENCY_CODES@[184]@ == "RWF"@ && CURRENCY_CODES@[185]@ == "SAR"@);
        }         else if i == 185 {
            assert(CURRENCY_CODES@[185]@ == "SAR"@ && CURRENCY_CODES@[186]@ == "SBD"@);
        }         else if i == 186 {
            assert(CURRENCY_CODES@[186]@ == "SBD"@ && CURRENCY_CODES@[187]@ == "SCR"@);
        }         else if i == 187 {
            assert(CURRENCY_CODES@[187]@ == "SCR"@ && CURRENCY_CODES@[188]@ == "SDD"@);
        }         else if i == 188 {
            assert(CURRENCY_CODES@[188]@ == "SDD"@ && CURRENCY_CODES@[189]@ == "SDG"@);
        }         else if i == 189 {
            assert(CURRENCY_CODES@[189]@ == "SDG"@ && CURRENCY_CODES@[190]@ == "SEK"@);
        }         else if i == 190 {
            assert(CURRENCY_CODES@[190]@ == "SEK"@ && CURRENCY_CODES@[191]@ == "SGD"@);
        }         else if i == 191 {
            assert(CURRENCY_CODES@[191]@ == "SGD"@ && CURRENCY_CODES@[192]@ == "SHP"@);
        }         else if i == 192 {
            assert(CURRENCY_CODES@[192]@ == "SHP"@ && CURRENCY_CODES@[193]@ == "SIT"@);
        }         else if i == 193 {
            assert(CURRENCY_CODES@[193]@ == "SIT"@ && CURRENCY_CODES@[194]@ == "SKK"@);
        }         else if i == 194 {
            assert(CURRENCY_CODES@[194]@ == "SKK"@ && CURRENCY_CODES@[195]@ == "SLL"@);
        }         else if i == 195 {
            assert(CURRENCY_CODES@[195]@ == "SLL"@ && CURRENCY_CODES@[196]@ == "SOS"@);
        }         else if i == 196 {
            assert(CURRENCY_CODES@[196]@ == "SOS"@ && CURRENCY_CODES@[197]@ == "SRD"@);
        }         else if i == 197 {
            assert(CURRENCY_CODES@[197]@ == "SRD"@ && CURRENCY_CODES@[198]@ == "SRG"@);
        }         else if i == 198 {
            assert(CURRENCY_CODES@[198]@ == "SRG"@ && CURRENCY_CODES@[199]@ == "SSP"@);
        }         else if i == 199 {
            assert(CURRENCY_CODES@[199]@ == "SSP"@ && CURRENCY_CODES@[200]@ == "STD"@);
        }
    }
}

/// The codes at positions 200 to 225 stand in ascending order.
proof fn lemma_currency_ascend_from_200()
    ensures
        forall|i: int| 200 <= i < 225 ==> rank(#[trigger] CURRENCY_CODES@[i]@) < rank(CURRENCY_CODES@[i + 1]@),
{
    reveal_strlit("STD");
    reveal_strlit("STN");
    reveal_strlit("SUR");
    reveal_strlit("SVC");
    reveal_strlit("SYP");
    reveal_strlit("SZL");
    reveal_strlit("THB");
    reveal_strlit("TJR");
    reveal_strlit("TJS");
    reveal_strlit("TMM");
    reveal_strlit("TMT");
    reveal_strlit("TND");
    reveal_strlit("TOP");
    reveal_strlit("TPE");
    reveal_strlit("TRL");
    reveal_strlit("TRY");
    reveal_strlit("TTD");
    reveal_strlit("TWD");
    reveal_strlit("TZS");
    reveal_strlit("UAH");
    reveal_strlit("UAK");
    reveal_strlit("UGS");
    reveal_strlit("UGX");
    reveal_strlit("USD");
    reveal_strlit("USN");
    reveal_strlit("USS");
    assert forall|i: int| 200 <= i < 225 implies rank(#[trigger] CURRENCY_CODES@[i]@) < rank(CURRENCY_CODES@[i + 1]@) by {
        if i == 200 {
            assert(CURRENCY_CODES@[200]@ == "STD"@ && CURRENCY_CODES@[201]@ == "STN"@);
        }         else if i == 201 {
            assert(CURRENCY_CODES@[201]@ == "STN"@ && CURRENCY_CODES@[202]@ == "SUR"@);
        }         else if i == 202 {
            assert(CURRENCY_CODES@[202]@ == "SUR"@ && CURRENCY_CODES@[203]@ == "SVC"@);
        }         else if i == 203 {
            assert(CURRENCY_CODES@[203]@ == "SVC"@ && CURRENCY_CODES@[204]@ == "SYP"@);
        }         else if i == 204 {
            assert(CURRENCY_CODES@[204]@ == "SYP"@ && CURRENCY_CODES@[205]@ == "SZL"@);
        }         else if i == 205 {
            assert(CURRENCY_CODES@[205]@ == "SZL"@ && CURRENCY_CODES@[206]@ == "THB"@);
        }         else if i == 206 {
            assert(CURRENCY_CODES@[206]@ == "THB"@ && CURRENCY_CODES@[207]@ == "TJR"@);
        }         else if i == 207 {
            assert(CURRENCY_CODES@[207]@ == "TJR"@ && CURRENCY_CODES@[208]@ == "TJS"@);
        }         else if i == 208 {
            assert(CURRENCY_CODES@[208]@ == "TJS"@ && CURRENCY_CODES@[209]@ == "TMM"@);
        }         else if i == 209 {
            assert(CURRENCY_CODES@[209]@ == "TMM"@ && CURRENCY_CODES@[210]@ == "TMT"@);
        }         else if i == 210 {
            assert(CURRENCY_CODES@[210]@ == "TMT"@ && CURRENCY_CODES@[211]@ == "TND"@);
        }         else if i == 211 {
            assert(CURRENCY_CODES@[211]@ == "TND"@ && CURRENCY_CODES@[212]@ == "TOP"@);
        }         else if i == 212 {
            assert(CURRENCY_CODES@[212]@ == "TOP"@ && CURRENCY_CODES@[213]@ == "TPE"@);
        }         else if i == 213 {
            assert(CURRENCY_CODES@[213]@ == "TPE"@ && CURRENCY_CODES@[214]@ == "TRL"@);
        }         else if i == 214 {
            assert(CURRENCY_CODES@[214]@ == "TRL"@ && CURRENCY_CODES@[215]@ == "TRY"@);
        }         else if i == 215 {
            assert(CURRENCY_CODES@[215]@ == "TRY"@ && CURRENCY_CODES@[216]@ == "TTD"@);
        }         else if i == 216 {
            assert(CURRENCY_CODES@[216]@ == "TTD"@ && CURRENCY_CODES@[217]@ == "TWD"@);
        }         else if i == 217 {
            assert(CURRENCY_CODES@[217]@ == "TWD"@ && CURRENCY_CODES@[218]@ == "TZS"@);
        }         else if i == 218 {
            assert(CURRENCY_CODES@[218]@ == "TZS"@ && CURRENCY_CODES@[219]@ == "UAH"@);
        }         else if i == 219 {
            assert(CURRENCY_CODES@[219]@ == "UAH"@ && CURRENCY_CODES@[220]@ == "UAK"@);
        }         else if i == 220 {
            assert(CURRENCY_CODES@[220]@ == "UAK"@ && CURRENCY_CODES@[221]@ == "UGS"@);
        }         else if i == 221 {
            assert(CURRENCY_CODES@[221]@ == "UGS"@ && CURRENCY_CODES@[222]@ == "UGX"@);
        }         else if i == 222 {
            assert(CURRENCY_CODES@[222]@ == "UGX"@ && CURRENCY_CODES@[223]@ == "USD"@);
        }         else if i == 223 {
            assert(CURRENCY_CODES@[223]@ == "USD"@ && CURRENCY_CODES@[224]@ == "USN"@);
        }         else if i == 224 {
            assert(CURRENCY_CODES@[224]@ == "USN"@ && CURRENCY_CODES@[225]@ == "USS"@);
        }
    }
}

/// The codes at positions 225 to 250 stand in ascending order.
proof fn lemma_currency_ascend_from_225()
    ensures
        forall|i: int| 225 <= i < 250 ==> rank(#[trigger] CURRENCY_CODES@[i]@) < rank(CURRENCY_CODES@[i + 1]@),
{
    reveal_strlit("USS");
    reveal_strlit("UYI");
    reveal_strlit("UYN");
    reveal_strlit("UYU");
    reveal_strlit("UYW");
    reveal_strlit("UZS");
    reveal_strlit("VEB");
    reveal_strlit("VEF");
    reveal_strlit("VES");
    reveal_strlit("VNC");
    reveal_strlit("VND");
    reveal_strlit("VUV");
    reveal_strlit("WST");
    reveal_strlit("XAF");
    reveal_strlit("XAG");
    reveal_strlit("XAU");
    reveal_strlit("XBA");
    reveal_strlit("XBB");
    reveal_strlit("XBC");
    reveal_strlit("XBD");
    reveal_strlit("XCD");
    reveal_strlit("XDR");
    reveal_strlit("XEU");
    reveal_strlit("XOF");
    reveal_strlit("XPD");
    reveal_strlit("XPF");
    assert forall|i: int| 225 <= i < 250 implies rank(#[trigger] CURRENCY_CODES@[i]@) < rank(CURRENCY_CODES@[i + 1]@) by {
        if i == 225 {
            assert(CURRENCY_CODES@[225]@ == "USS"@ && CURRENCY_CODES@[226]@ == "UYI"@);
        }         else if i == 226 {
            assert(CURRENCY_CODES@[226]@ == "UYI"@ && CURRENCY_CODES@[227]@ == "UYN"@);
        }         else if i == 227 {
            assert(CURRENCY_CODES@[227]@ == "UYN"@ && CURRENCY_CODES@[228]@ == "UYU"@);
        }         else if i == 228 {
            assert(CURRENCY_CODES@[228]@ == "UYU"@ && CURRENCY_CODES@[229]@ == "UYW"@);
        }         else if i == 229 {
            assert(CURRENCY_CODES@[229]@ == "UYW"@ && CURRENCY_CODES@[230]@ == "UZS"@);
        }         else if i == 230 {
            assert(CURRENCY_CODES@[230]@ == "UZS"@ && CURRENCY_CODES@[231]@ == "VEB"@);
        }         else if i == 231 {
            assert(CURRENCY_CODES@[231]@ == "VEB"@ && CURRENCY_CODES@[232]@ == "VEF"@);
        }         else if i == 232 {
            assert(CURRENCY_CODES@[232]@ == "VEF"@ && CURRENCY_CODES@[233]@ == "VES"@);
        }         else if i == 233 {
            assert(CURRENCY_CODES@[233]@ == "VES"@ && CURRENCY_CODES@[234]@ == "VNC"@);
        }         else if i == 234 {
            assert(CURRENCY_CODES@[234]@ == "VNC"@ && CURRENCY_CODES@[235]@ == "VND"@);
        }         else if i == 235 {
            assert(CURRENCY_CODES@[235]@ == "VND"@ && CURRENCY_CODES@[236]@ == "VUV"@);
        }         else if i == 236 {
            assert(CURRENCY_CODES@[236]@ == "VUV"@ && CURRENCY_CODES@[237]@ == "WST"@);
        }         else if i == 237 {
            assert(CURRENCY_CODES@[237]@ == "WST"@ && CURRENCY_CODES@[238]@ == "XAF"@);
        }         else if i == 238 {
            assert(CURRENCY_CODES@[238]@ == "XAF"@ && CURRENCY_CODES@[239]@ == "XAG"@);
        }         else if i == 239 {
            assert(CURRENCY_CODES@[239]@ == "XAG"@ && CURRENCY_CODES@[240]@ == "XAU"@);
        }         else if i == 240 {
            assert(CURRENCY_CODES@[240]@ == "XAU"@ && CURRENCY_CODES@[241]@ == "XBA"@);
        }         else if i == 241 {
            assert(CURRENCY_CODES@[241]@ == "XBA"@ && CURRENCY_CODES@[242]@ == "XBB"@);
        }         else if i == 242 {
            assert(CURRENCY_CODES@[242]@ == "XBB"@ && CURRENCY_CODES@[243]@ == "XBC"@);
        }         else if i == 243 {
            assert(CURRENCY_CODES@[243]@ == "XBC"@ && CURRENCY_CODES@[244]@ == "XBD"@);
        }         else if i == 244 {
            assert(CURRENCY_CODES@[244]@ == "XBD"@ && CURRENCY_CODES@[245]@ == "XCD"@);
        }         else if i == 245 {
            assert(CURRENCY_CODES@[245]@ == "XCD"@ && CURRENCY_CODES@[246]@ == "XDR"@);
        }         else if i == 246 {
            assert(CURRENCY_CODES@[246]@ == "XDR"@ && CURRENCY_CODES@[247]@ == "XEU"@);
        }         else if i == 247 {
            assert(CURRENCY_CODES@[247]@ == "XEU"@ && CURRENCY_CODES@[248]@ == "XOF"@);
        }         else if i == 248 {
            assert(CURRENCY_CODES@[248]@ == "XOF"@ && CURRENCY_CODES@[249]@ == "XPD"@);
        }         else if i == 249 {
            assert(CURRENCY_CODES@[249]@ == "XPD"@ && CURRENCY_CODES@[250]@ == "XPF"@);
        }
    }
}

/// The codes at positions 250 to 272 stand in ascending order.
proof fn lemma_currency_ascend_from_250()
    ensures
        forall|i: int| 250 <= i < 272 ==> rank(#[trigger] CURRENCY_CODES@[i]@) < rank(CURRENCY_CODES@[i + 1]@),
{
    reveal_strlit("XPF");
    reveal_strlit("XPT");
    reveal_strlit("XSU");
    reveal_strlit("XTS");
    reveal_strlit("XUA");
    reveal_strlit("XXX");
    reveal_strlit("YDD");
    reveal_strlit("YER");
    reveal_strlit("YUD");
    reveal_strlit("YUF");
    reveal_strlit("YUM");
    reveal_strlit("YUN");
    reveal_strlit("YUS");
    reveal_strlit("ZAR");
    reveal_strlit("ZMK");
    reveal_strlit("ZMW");
    reveal_strlit("ZRN");
    reveal_strlit("ZRZ");
    reveal_strlit("ZWC");
    reveal_strlit("ZWD");
    reveal_strlit("ZWL");
    reveal_strlit("ZWN");
    reveal_strlit("ZWR");
    assert forall|i: int| 250 <= i < 272 implies rank(#[trigger] CURRENCY_CODES@[i]@) < rank(CURRENCY_CODES@[i + 1]@) by {
        if i == 250 {
            assert(CURRENCY_CODES@[250]@ == "XPF"@ && CURRENCY_CODES@[251]@ == "XPT"@);
        }         else if i == 251 {
            assert(CURRENCY_CODES@[251]@ == "XPT"@ && CURRENCY_CODES@[252]@ == "XSU"@);
        }         else if i == 252 {
            assert(CURRENCY_CODES@[252]@ == "XSU"@ && CURRENCY_CODES@[253]@ == "XTS"@);
        }         else if i == 253 {
            assert(CURRENCY_CODES@[253]@ == "XTS"@ && CURRENCY_CODES@[254]@ == "XUA"@);
        }         else if i == 254 {
            assert(CURRENCY_CODES@[254]@ == "XUA"@ && CURRENCY_CODES@[255]@ == "XXX"@);
        }         else if i == 255 {
            assert(CURRENCY_CODES@[255]@ == "XXX"@ && CURRENCY_CODES@[256]@ == "YDD"@);
        }         else if i == 256 {
            assert(CURRENCY_CODES@[256]@ == "YDD"@ && CURRENCY_CODES@[257]@ == "YER"@);
        }         else if i == 257 {
            assert(CURRENCY_CODES@[257]@ == "YER"@ && CURRENCY_CODES@[258]@ == "YUD"@);
        }         else if i == 258 {
            assert(CURRENCY_CODES@[258]@ == "YUD"@ && CURRENCY_CODES@[259]@ == "YUF"@);
        }         else if i == 259 {
            assert(CURRENCY_CODES@[259]@ == "YUF"@ && CURRENCY_CODES@[260]@ == "YUM"@);
        }         else if i == 260 {
            assert(CURRENCY_CODES@[260]@ == "YUM"@ && CURRENCY_CODES@[261]@ == "YUN"@);
        }         else if i == 261 {
            assert(CURRENCY_CODES@[261]@ == "YUN"@ && CURRENCY_CODES@[262]@ == "YUS"@);
        }         else if i == 262 {
            assert(CURRENCY_CODES@[262]@ == "YUS"@ && CURRENCY_CODES@[263]@ == "ZAR"@);
        }         else if i == 263 {
            assert(CURRENCY_CODES@[263]@ == "ZAR"@ && CURRENCY_CODES@[264]@ == "ZMK"@);
        }         else if i == 264 {
            assert(CURRENCY_CODES@[264]@ == "ZMK"@ && CURRENCY_CODES@[265]@ == "ZMW"@);
        }         else if i == 265 {
            assert(CURRENCY_CODES@[265]@ == "ZMW"@ && CURRENCY_CODES@[266]@ == "ZRN"@);
        }         else if i == 266 {
            assert(CURRENCY_CODES@[266]@ == "ZRN"@ && CURRENCY_CODES@[267]@ == "ZRZ"@);
        }         else if i == 267 {
            assert(CURRENCY_CODES@[267]@ == "ZRZ"@ && CURRENCY_CODES@[268]@ == "ZWC"@);
        }         else if i == 268 {
            assert(CURRENCY_CODES@[268]@ == "ZWC"@ && CURRENCY_CODES@[269]@ == "ZWD"@);
        }         else if i == 269 {
            assert(CURRENCY_CODES@[269]@ == "ZWD"@ && CURRENCY_CODES@[270]@ == "ZWL"@);
        }         else if i == 270 {
            assert(CURRENCY_CODES@[270]@ == "ZWL"@ && CURRENCY_CODES@[271]@ == "ZWN"@);
        }         else if i == 271 {
            assert(CURRENCY_CODES@[271]@ == "ZWN"@ && CURRENCY_CODES@[272]@ == "ZWR"@);
        }
    }
}

/// The table of currencies is in ascending order, so that no code stands in it
/// twice.
pub proof fn lemma_currency_codes_ascend()
    ensures
        ascends(CURRENCY_CODES@),
{
    lemma_currency_ascend_from_0();
    lemma_currency_ascend_from_25();
    lemma_currency_ascend_from_50();
    lemma_currency_ascend_from_75();
    lemma_currency_ascend_from_100();
    lemma_currency_ascend_from_125();
    lemma_currency_ascend_from_150();
    lemma_currency_ascend_from_175();
    lemma_currency_ascend_from_200();
    lemma_currency_ascend_from_225();
    lemma_currency_ascend_from_250();
}

/// Every currency is found again by its own code: looking up the code at a
/// position of the table gives that position.
pub proof fn law_every_currency_is_found_by_its_code(i: int)
    requires
        0 <= i < CURRENCY_CODES@.len(),
    ensures
        is_position(CURRENCY_CODES@, CURRENCY_CODES@[i]@, i),
{
    lemma_currency_codes_ascend();
    lemma_ascending_table_is_exact(CURRENCY_CODES@, i);
}

/// The registry answers the code of every listed currency with that
/// currency, and the code of every listed unit with that unit.
pub proof fn law_validate_finds_every_listed_term(domain: Domain, i: int, outcome: Result<Term, VocabError>)
    requires
        domain == Domain::Currency || domain == Domain::MeasurementUnit,
        domain == Domain::Currency ==> 0 <= i < CURRENCY_CODES@.len() && validates(
            domain,
            CURRENCY_CODES@[i]@,
            outcome,
        ),
        domain == Domain::MeasurementUnit ==> 0 <= i < UNIT_CODES@.len() && validates(
            domain,
            UNIT_CODES@[i]@,
            outcome,
        ),
    ensures
        outcome is Ok,
        outcome->Ok_0.domain_of() == domain,
        outcome->Ok_0.position() == i,
{
    if domain == Domain::Currency {
        law_every_currency_is_found_by_its_code(i);
    } else {
        law_every_unit_is_found_by_its_code(i);
    }
}

} // verus!
