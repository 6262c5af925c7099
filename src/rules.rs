//! The English rule tables of the transcriber, each written once as a
//! sequence of `(pattern, replacement)` pairs and built by an executable
//! function proved to yield exactly that sequence.

use vstd::prelude::*;

verus! {

/// The rules for digits and punctuation, tried in order.
pub open spec fn character_table() -> Seq<(&'static str, &'static str)> {
    seq![
        ("(A)", ""),
        ("(!)", "."),
        ("(\") ", "-AH5NKWOWT-"),
        ("(\")", "KWOW4T-"),
        ("(#)", " NAH4MBER"),
        ("($)", " DAA4LER"),
        ("(%)", " PERSEH4NT"),
        ("(&)", " AEND"),
        ("(')", ""),
        ("(*)", " AE4STERIHSK"),
        ("(+)", " PLAH4S"),
        ("(,)", ","),
        (" (-) ", "-"),
        ("(-)", ""),
        ("(.)", " POYNT"),
        ("(/)", " SLAE4SH"),
        ("(0)", " ZIY4ROW"),
        (" (1ST)", "FER4ST"),
        (" (10TH)", "TEH4NTH"),
        ("(1)", " WAH4N"),
        (" (2ND)", "SEH4KUND"),
        ("(2)", " TUW4"),
        (" (3RD)", "THER4D"),
        ("(3)", " THRIY4"),
        ("(4)", " FOH4R"),
        (" (5TH)", "FIH4FTH"),
        ("(5)", " FAY4V"),
        (" (64) ", "SIH4KSTIY FOHR"),
        ("(6)", " SIH4KS"),
        ("(7)", " SEH4VUN"),
        (" (8TH)", "EY4TH"),
        ("(8)", " EY4T"),
        ("(9)", " NAY4N"),
        ("(:)", "."),
        ("(;)", "."),
        ("(<)", " LEH4S DHAEN"),
        ("(=)", " IY4KWULZ"),
        ("(>)", " GREY4TER DHAEN"),
        ("(?)", "?"),
        ("(@)", " AE6T"),
        ("(^)", " KAE4RIXT"),
    ]
}

pub fn character_patterns() -> (r: Vec<(&'static str, &'static str)>)
    ensures
        r@ == character_table(),
{
    let mut v: Vec<(&'static str, &'static str)> = Vec::new();
    v.push(("(A)", ""));
    v.push(("(!)", "."));
    v.push(("(\") ", "-AH5NKWOWT-"));
    v.push(("(\")", "KWOW4T-"));
    v.push(("(#)", " NAH4MBER"));
    v.push(("($)", " DAA4LER"));
    v.push(("(%)", " PERSEH4NT"));
    v.push(("(&)", " AEND"));
    v.push(("(')", ""));
    v.push(("(*)", " AE4STERIHSK"));
    v.push(("(+)", " PLAH4S"));
    v.push(("(,)", ","));
    v.push((" (-) ", "-"));
    v.push(("(-)", ""));
    v.push(("(.)", " POYNT"));
    v.push(("(/)", " SLAE4SH"));
    v.push(("(0)", " ZIY4ROW"));
    v.push((" (1ST)", "FER4ST"));
    v.push((" (10TH)", "TEH4NTH"));
    v.push(("(1)", " WAH4N"));
    v.push((" (2ND)", "SEH4KUND"));
    v.push(("(2)", " TUW4"));
    v.push((" (3RD)", "THER4D"));
    v.push(("(3)", " THRIY4"));
    v.push(("(4)", " FOH4R"));
    v.push((" (5TH)", "FIH4FTH"));
    v.push(("(5)", " FAY4V"));
    v.push((" (64) ", "SIH4KSTIY FOHR"));
    v.push(("(6)", " SIH4KS"));
    v.push(("(7)", " SEH4VUN"));
    v.push((" (8TH)", "EY4TH"));
    v.push(("(8)", " EY4T"));
    v.push(("(9)", " NAY4N"));
    v.push(("(:)", "."));
    v.push(("(;)", "."));
    v.push(("(<)", " LEH4S DHAEN"));
    v.push(("(=)", " IY4KWULZ"));
    v.push(("(>)", " GREY4TER DHAEN"));
    v.push(("(?)", "?"));
    v.push(("(@)", " AE6T"));
    v.push(("(^)", " KAE4RIXT"));
    v
}

/// The rules whose source starts with A, part 1.
pub open spec fn letter_table_a_1() -> Seq<(&'static str, &'static str)> {
    seq![
        (" (A.)", "EH4Y. "),
        ("(A) ", "AH"),
        (" (ARE) ", "AAR"),
        (" (AR)O", "AXR"),
        ("(AR)#", "EH4R"),
        (" ^(AS)#", "EY4S"),
        ("(A)WA", "AX"),
        ("(AW)", "AO5"),
        (" :(ANY)", "EH4NIY"),
        ("(A)^+#", "EY5"),
        ("#:(ALLY)", "ULIY"),
        (" (AL)#", "UL"),
        ("(AGAIN)", "AXGEH4N"),
        ("#:(AG)E", "IHJ"),
        ("(A)^%", "EY"),
        ("(A)^+:#", "AE"),
        (" :(A)^+ ", "EY4"),
        (" (ARR)", "AXR"),
        ("(ARR)", "AE4R"),
        (" ^(AR) ", "AA5R"),
        ("(AR)", "AA5R"),
        ("(AIR)", "EH4R"),
        ("(AI)", "EY4"),
        ("(AY)", "EY5"),
        ("(AU)", "AO4"),
        ("#:(AL) ", "UL"),
        ("#:(ALS) ", "ULZ"),
        ("(ALK)", "AO4K"),
        ("(AL)^", "AOL"),
        (" :(ABLE)", "EY4BUL"),
    ]
}

fn letter_patterns_a_1() -> (r: Vec<(&'static str, &'static str)>)
    ensures
        r@ == letter_table_a_1(),
{
    let mut v: Vec<(&'static str, &'static str)> = Vec::new();
    v.push((" (A.)", "EH4Y. "));
    v.push(("(A) ", "AH"));
    v.push((" (ARE) ", "AAR"));
    v.push((" (AR)O", "AXR"));
    v.push(("(AR)#", "EH4R"));
    v.push((" ^(AS)#", "EY4S"));
    v.push(("(A)WA", "AX"));
    v.push(("(AW)", "AO5"));
    v.push((" :(ANY)", "EH4NIY"));
    v.push(("(A)^+#", "EY5"));
    v.push(("#:(ALLY)", "ULIY"));
    v.push((" (AL)#", "UL"));
    v.push(("(AGAIN)", "AXGEH4N"));
    v.push(("#:(AG)E", "IHJ"));
    v.push(("(A)^%", "EY"));
    v.push(("(A)^+:#", "AE"));
    v.push((" :(A)^+ ", "EY4"));
    v.push((" (ARR)", "AXR"));
    v.push(("(ARR)", "AE4R"));
    v.push((" ^(AR) ", "AA5R"));
    v.push(("(AR)", "AA5R"));
    v.push(("(AIR)", "EH4R"));
    v.push(("(AI)", "EY4"));
    v.push(("(AY)", "EY5"));
    v.push(("(AU)", "AO4"));
    v.push(("#:(AL) ", "UL"));
    v.push(("#:(ALS) ", "ULZ"));
    v.push(("(ALK)", "AO4K"));
    v.push(("(AL)^", "AOL"));
    v.push((" :(ABLE)", "EY4BUL"));
    v
}

/// The rules whose source starts with A, part 2.
pub open spec fn letter_table_a_2() -> Seq<(&'static str, &'static str)> {
    seq![
        ("(ABLE)", "AXBUL"),
        ("(A)VO", "EY4"),
        ("(ANG)+", "EY4NJ"),
        ("(ATARI)", "AHTAA4RIY"),
        ("(A)TOM", "AE"),
        ("(A)TTI", "AE"),
        (" (AT) ", "AET"),
        (" (A)T", "AH"),
        ("(A)", "AE"),
    ]
}

fn letter_patterns_a_2() -> (r: Vec<(&'static str, &'static str)>)
    ensures
        r@ == letter_table_a_2(),
{
    let mut v: Vec<(&'static str, &'static str)> = Vec::new();
    v.push(("(ABLE)", "AXBUL"));
    v.push(("(A)VO", "EY4"));
    v.push(("(ANG)+", "EY4NJ"));
    v.push(("(ATARI)", "AHTAA4RIY"));
    v.push(("(A)TOM", "AE"));
    v.push(("(A)TTI", "AE"));
    v.push((" (AT) ", "AET"));
    v.push((" (A)T", "AH"));
    v.push(("(A)", "AE"));
    v
}

/// The rules whose source starts with B.
pub open spec fn letter_table_b() -> Seq<(&'static str, &'static str)> {
    seq![
        (" (B) ", "BIY4"),
        (" (BE)^#", "BIH"),
        ("(BEING)", "BIY4IHNX"),
        (" (BOTH) ", "BOW4TH"),
        (" (BUS)#", "BIH4Z"),
        ("(BREAK)", "BREY5K"),
        ("(BUIL)", "BIH4L"),
        ("(B)", "B"),
    ]
}

fn letter_patterns_b() -> (r: Vec<(&'static str, &'static str)>)
    ensures
        r@ == letter_table_b(),
{
    let mut v: Vec<(&'static str, &'static str)> = Vec::new();
    v.push((" (B) ", "BIY4"));
    v.push((" (BE)^#", "BIH"));
    v.push(("(BEING)", "BIY4IHNX"));
    v.push((" (BOTH) ", "BOW4TH"));
    v.push((" (BUS)#", "BIH4Z"));
    v.push(("(BREAK)", "BREY5K"));
    v.push(("(BUIL)", "BIH4L"));
    v.push(("(B)", "B"));
    v
}

/// The rules whose source starts with C.
pub open spec fn letter_table_c() -> Seq<(&'static str, &'static str)> {
    seq![
        (" (C) ", "SIY4"),
        (" (CH)^", "K"),
        ("^E(CH)", "K"),
        ("(CHA)R#", "KEH5"),
        ("(CH)", "CH"),
        (" S(CI)#", "SAY4"),
        ("(CI)A", "SH"),
        ("(CI)O", "SH"),
        ("(CI)EN", "SH"),
        ("(CITY)", "SIHTIY"),
        ("(C)+", "S"),
        ("(CK)", "K"),
        ("(COMMODORE)", "KAA4MAHDOHR"),
        ("(COM)", "KAHM"),
        ("(CUIT)", "KIHT"),
        ("(CREA)", "KRIYEY"),
        ("(C)", "K"),
    ]
}

fn letter_patterns_c() -> (r: Vec<(&'static str, &'static str)>)
    ensures
        r@ == letter_table_c(),
{
    let mut v: Vec<(&'static str, &'static str)> = Vec::new();
    v.push((" (C) ", "SIY4"));
    v.push((" (CH)^", "K"));
    v.push(("^E(CH)", "K"));
    v.push(("(CHA)R#", "KEH5"));
    v.push(("(CH)", "CH"));
    v.push((" S(CI)#", "SAY4"));
    v.push(("(CI)A", "SH"));
    v.push(("(CI)O", "SH"));
    v.push(("(CI)EN", "SH"));
    v.push(("(CITY)", "SIHTIY"));
    v.push(("(C)+", "S"));
    v.push(("(CK)", "K"));
    v.push(("(COMMODORE)", "KAA4MAHDOHR"));
    v.push(("(COM)", "KAHM"));
    v.push(("(CUIT)", "KIHT"));
    v.push(("(CREA)", "KRIYEY"));
    v.push(("(C)", "K"));
    v
}

/// The rules whose source starts with D.
pub open spec fn letter_table_d() -> Seq<(&'static str, &'static str)> {
    seq![
        (" (D) ", "DIY4"),
        (" (DR.) ", "DAA4KTER"),
        ("#:(DED) ", "DIHD"),
        (".E(D) ", "D"),
        ("#:^E(D) ", "T"),
        (" (DE)^#", "DIH"),
        (" (DO) ", "DUW"),
        (" (DOES)", "DAHZ"),
        ("(DONE) ", "DAH5N"),
        ("(DOING)", "DUW4IHNX"),
        (" (DOW)", "DAW"),
        ("#(DU)A", "JUW"),
        ("#(DU)^#", "JAX"),
        ("(D)", "D"),
    ]
}

fn letter_patterns_d() -> (r: Vec<(&'static str, &'static str)>)
    ensures
        r@ == letter_table_d(),
{
    let mut v: Vec<(&'static str, &'static str)> = Vec::new();
    v.push((" (D) ", "DIY4"));
    v.push((" (DR.) ", "DAA4KTER"));
    v.push(("#:(DED) ", "DIHD"));
    v.push((".E(D) ", "D"));
    v.push(("#:^E(D) ", "T"));
    v.push((" (DE)^#", "DIH"));
    v.push((" (DO) ", "DUW"));
    v.push((" (DOES)", "DAHZ"));
    v.push(("(DONE) ", "DAH5N"));
    v.push(("(DOING)", "DUW4IHNX"));
    v.push((" (DOW)", "DAW"));
    v.push(("#(DU)A", "JUW"));
    v.push(("#(DU)^#", "JAX"));
    v.push(("(D)", "D"));
    v
}

/// The rules whose source starts with E, part 1.
pub open spec fn letter_table_e_1() -> Seq<(&'static str, &'static str)> {
    seq![
        (" (E) ", "IYIY4"),
        ("#:(E) ", ""),
        ("':^(E) ", ""),
        (" :(E) ", "IY"),
        ("#(ED) ", "D"),
        ("#:(E)D ", ""),
        ("(EV)ER", "EH4V"),
        ("(E)^%", "IY4"),
        ("(ERI)#", "IY4RIY"),
        ("(ERI)", "EH4RIH"),
        ("#:(ER)#", "ER"),
        ("(ERROR)", "EH4ROHR"),
        ("(ERASE)", "IHREY5S"),
        ("(ER)#", "EHR"),
        ("(ER)", "ER"),
        (" (EVEN)", "IYVEHN"),
        ("#:(E)W", ""),
        ("@(EW)", "UW"),
        ("(EW)", "YUW"),
        ("(E)O", "IY"),
        ("#:&(ES) ", "IHZ"),
        ("#:(E)S ", ""),
        ("#:(ELY) ", "LIY"),
        ("#:(EMENT)", "MEHNT"),
        ("(EFUL)", "FUHL"),
        ("(EE)", "IY4"),
        ("(EARN)", "ER5N"),
        (" (EAR)^", "ER5"),
        ("(EAD)", "EHD"),
        ("#:(EA) ", "IYAX"),
    ]
}

fn letter_patterns_e_1() -> (r: Vec<(&'static str, &'static str)>)
    ensures
        r@ == letter_table_e_1(),
{
    let mut v: Vec<(&'static str, &'static str)> = Vec::new();
    v.push((" (E) ", "IYIY4"));
    v.push(("#:(E) ", ""));
    v.push(("':^(E) ", ""));
    v.push((" :(E) ", "IY"));
    v.push(("#(ED) ", "D"));
    v.push(("#:(E)D ", ""));
    v.push(("(EV)ER", "EH4V"));
    v.push(("(E)^%", "IY4"));
    v.push(("(ERI)#", "IY4RIY"));
    v.push(("(ERI)", "EH4RIH"));
    v.push(("#:(ER)#", "ER"));
    v.push(("(ERROR)", "EH4ROHR"));
    v.push(("(ERASE)", "IHREY5S"));
    v.push(("(ER)#", "EHR"));
    v.push(("(ER)", "ER"));
    v.push((" (EVEN)", "IYVEHN"));
    v.push(("#:(E)W", ""));
    v.push(("@(EW)", "UW"));
    v.push(("(EW)", "YUW"));
    v.push(("(E)O", "IY"));
    v.push(("#:&(ES) ", "IHZ"));
    v.push(("#:(E)S ", ""));
    v.push(("#:(ELY) ", "LIY"));
    v.push(("#:(EMENT)", "MEHNT"));
    v.push(("(EFUL)", "FUHL"));
    v.push(("(EE)", "IY4"));
    v.push(("(EARN)", "ER5N"));
    v.push((" (EAR)^", "ER5"));
    v.push(("(EAD)", "EHD"));
    v.push(("#:(EA) ", "IYAX"));
    v
}

/// The rules whose source starts with E, part 2.
pub open spec fn letter_table_e_2() -> Seq<(&'static str, &'static str)> {
    seq![
        ("(EA)SU", "EH5"),
        ("(EA)", "IY5"),
        ("(EIGH)", "EY4"),
        ("(EI)", "IY4"),
        (" (EYE)", "AY4"),
        ("(EY)", "IY"),
        ("(EU)", "YUW5"),
        ("(EQUAL)", "IY4KWUL"),
        ("(E)", "EH"),
    ]
}

fn letter_patterns_e_2() -> (r: Vec<(&'static str, &'static str)>)
    ensures
        r@ == letter_table_e_2(),
{
    let mut v: Vec<(&'static str, &'static str)> = Vec::new();
    v.push(("(EA)SU", "EH5"));
    v.push(("(EA)", "IY5"));
    v.push(("(EIGH)", "EY4"));
    v.push(("(EI)", "IY4"));
    v.push((" (EYE)", "AY4"));
    v.push(("(EY)", "IY"));
    v.push(("(EU)", "YUW5"));
    v.push(("(EQUAL)", "IY4KWUL"));
    v.push(("(E)", "EH"));
    v
}

/// The rules whose source starts with F.
pub open spec fn letter_table_f() -> Seq<(&'static str, &'static str)> {
    seq![
        (" (F) ", "EH4F"),
        ("(FUL)", "FUHL"),
        ("(FRIEND)", "FREH5ND"),
        ("(FATHER)", "FAA4DHER"),
        ("(F)F", ""),
        ("(F)", "F"),
    ]
}

fn letter_patterns_f() -> (r: Vec<(&'static str, &'static str)>)
    ensures
        r@ == letter_table_f(),
{
    let mut v: Vec<(&'static str, &'static str)> = Vec::new();
    v.push((" (F) ", "EH4F"));
    v.push(("(FUL)", "FUHL"));
    v.push(("(FRIEND)", "FREH5ND"));
    v.push(("(FATHER)", "FAA4DHER"));
    v.push(("(F)F", ""));
    v.push(("(F)", "F"));
    v
}

/// The rules whose source starts with G.
pub open spec fn letter_table_g() -> Seq<(&'static str, &'static str)> {
    seq![
        (" (G) ", "JIY4"),
        ("(GIV)", "GIH5V"),
        (" (G)I^", "G"),
        ("(GE)T", "GEH5"),
        ("SU(GGES)", "GJEH4S"),
        ("(GG)", "G"),
        (" B#(G)", "G"),
        ("(G)+", "J"),
        ("(GREAT)", "GREY4T"),
        ("(GON)E", "GAO5N"),
        ("#(GH)", ""),
        (" (GN)", "N"),
        ("(G)", "G"),
    ]
}

fn letter_patterns_g() -> (r: Vec<(&'static str, &'static str)>)
    ensures
        r@ == letter_table_g(),
{
    let mut v: Vec<(&'static str, &'static str)> = Vec::new();
    v.push((" (G) ", "JIY4"));
    v.push(("(GIV)", "GIH5V"));
    v.push((" (G)I^", "G"));
    v.push(("(GE)T", "GEH5"));
    v.push(("SU(GGES)", "GJEH4S"));
    v.push(("(GG)", "G"));
    v.push((" B#(G)", "G"));
    v.push(("(G)+", "J"));
    v.push(("(GREAT)", "GREY4T"));
    v.push(("(GON)E", "GAO5N"));
    v.push(("#(GH)", ""));
    v.push((" (GN)", "N"));
    v.push(("(G)", "G"));
    v
}

/// The rules whose source starts with H.
pub open spec fn letter_table_h() -> Seq<(&'static str, &'static str)> {
    seq![
        (" (H) ", "EY4CH"),
        (" (HAV)", "/HAE6V"),
        (" (HERE)", "/HIYR"),
        (" (HOUR)", "AW5ER"),
        ("(HOW)", "/HAW"),
        ("(H)#", "/H"),
        ("(H)", ""),
    ]
}

fn letter_patterns_h() -> (r: Vec<(&'static str, &'static str)>)
    ensures
        r@ == letter_table_h(),
{
    let mut v: Vec<(&'static str, &'static str)> = Vec::new();
    v.push((" (H) ", "EY4CH"));
    v.push((" (HAV)", "/HAE6V"));
    v.push((" (HERE)", "/HIYR"));
    v.push((" (HOUR)", "AW5ER"));
    v.push(("(HOW)", "/HAW"));
    v.push(("(H)#", "/H"));
    v.push(("(H)", ""));
    v
}

/// The rules whose source starts with I, part 1.
pub open spec fn letter_table_i_1() -> Seq<(&'static str, &'static str)> {
    seq![
        (" (IN)", "IHN"),
        (" (I) ", "AY4"),
        ("(I) ", "AY"),
        ("(IN)D", "AY5N"),
        ("SEM(I)", "IY"),
        (" ANT(I)", "AY"),
        ("(IER)", "IYER"),
        ("#:R(IED) ", "IYD"),
        ("(IED) ", "AY5D"),
        ("(IEN)", "IYEHN"),
        ("(IE)T", "AY4EH"),
        ("(I')", "AY5"),
        (" :(I)^%", "AY5"),
        (" :(IE) ", "AY4"),
        ("(I)%", "IY"),
        ("(IE)", "IY4"),
        (" (IDEA)", "AYDIY5AH"),
        ("(I)^+:#", "IH"),
        ("(IR)#", "AYR"),
        ("(IZ)%", "AYZ"),
        ("(IS)%", "AYZ"),
        ("I^(I)^#", "IH"),
        ("+^(I)^+", "AY"),
        ("#:^(I)^+", "IH"),
        ("(I)^+", "AY"),
        ("(IR)", "ER"),
        ("(IGH)", "AY4"),
        ("(ILD)", "AY5LD"),
        (" (IGN)", "IHGN"),
        ("(IGN) ", "AY4N"),
    ]
}

fn letter_patterns_i_1() -> (r: Vec<(&'static str, &'static str)>)
    ensures
        r@ == letter_table_i_1(),
{
    let mut v: Vec<(&'static str, &'static str)> = Vec::new();
    v.push((" (IN)", "IHN"));
    v.push((" (I) ", "AY4"));
    v.push(("(I) ", "AY"));
    v.push(("(IN)D", "AY5N"));
    v.push(("SEM(I)", "IY"));
    v.push((" ANT(I)", "AY"));
    v.push(("(IER)", "IYER"));
    v.push(("#:R(IED) ", "IYD"));
    v.push(("(IED) ", "AY5D"));
    v.push(("(IEN)", "IYEHN"));
    v.push(("(IE)T", "AY4EH"));
    v.push(("(I')", "AY5"));
    v.push((" :(I)^%", "AY5"));
    v.push((" :(IE) ", "AY4"));
    v.push(("(I)%", "IY"));
    v.push(("(IE)", "IY4"));
    v.push((" (IDEA)", "AYDIY5AH"));
    v.push(("(I)^+:#", "IH"));
    v.push(("(IR)#", "AYR"));
    v.push(("(IZ)%", "AYZ"));
    v.push(("(IS)%", "AYZ"));
    v.push(("I^(I)^#", "IH"));
    v.push(("+^(I)^+", "AY"));
    v.push(("#:^(I)^+", "IH"));
    v.push(("(I)^+", "AY"));
    v.push(("(IR)", "ER"));
    v.push(("(IGH)", "AY4"));
    v.push(("(ILD)", "AY5LD"));
    v.push((" (IGN)", "IHGN"));
    v.push(("(IGN) ", "AY4N"));
    v
}

/// The rules whose source starts with I, part 2.
pub open spec fn letter_table_i_2() -> Seq<(&'static str, &'static str)> {
    seq![
        ("(IGN)^", "AY4N"),
        ("(IGN)%", "AY4N"),
        ("(ICRO)", "AY4KROH"),
        ("(IQUE)", "IY4K"),
        ("(I)", "IH"),
    ]
}

fn letter_patterns_i_2() -> (r: Vec<(&'static str, &'static str)>)
    ensures
        r@ == letter_table_i_2(),
{
    let mut v: Vec<(&'static str, &'static str)> = Vec::new();
    v.push(("(IGN)^", "AY4N"));
    v.push(("(IGN)%", "AY4N"));
    v.push(("(ICRO)", "AY4KROH"));
    v.push(("(IQUE)", "IY4K"));
    v.push(("(I)", "IH"));
    v
}

/// The rules whose source starts with J.
pub open spec fn letter_table_j() -> Seq<(&'static str, &'static str)> {
    seq![
        (" (J) ", "JEY4"),
        ("(J)", "J"),
    ]
}

fn letter_patterns_j() -> (r: Vec<(&'static str, &'static str)>)
    ensures
        r@ == letter_table_j(),
{
    let mut v: Vec<(&'static str, &'static str)> = Vec::new();
    v.push((" (J) ", "JEY4"));
    v.push(("(J)", "J"));
    v
}

/// The rules whose source starts with K.
pub open spec fn letter_table_k() -> Seq<(&'static str, &'static str)> {
    seq![
        (" (K) ", "KEY4"),
        (" (K)N", ""),
        ("(K)", "K"),
    ]
}

fn letter_patterns_k() -> (r: Vec<(&'static str, &'static str)>)
    ensures
        r@ == letter_table_k(),
{
    let mut v: Vec<(&'static str, &'static str)> = Vec::new();
    v.push((" (K) ", "KEY4"));
    v.push((" (K)N", ""));
    v.push(("(K)", "K"));
    v
}

/// The rules whose source starts with L.
pub open spec fn letter_table_l() -> Seq<(&'static str, &'static str)> {
    seq![
        (" (L) ", "EH4L"),
        ("(LO)C#", "LOW"),
        ("L(L)", ""),
        ("#:^(L)%", "UL"),
        ("(LEAD)", "LIYD"),
        (" (LAUGH)", "LAE4F"),
        ("(L)", "L"),
    ]
}

fn letter_patterns_l() -> (r: Vec<(&'static str, &'static str)>)
    ensures
        r@ == letter_table_l(),
{
    let mut v: Vec<(&'static str, &'static str)> = Vec::new();
    v.push((" (L) ", "EH4L"));
    v.push(("(LO)C#", "LOW"));
    v.push(("L(L)", ""));
    v.push(("#:^(L)%", "UL"));
    v.push(("(LEAD)", "LIYD"));
    v.push((" (LAUGH)", "LAE4F"));
    v.push(("(L)", "L"));
    v
}

/// The rules whose source starts with M.
pub open spec fn letter_table_m() -> Seq<(&'static str, &'static str)> {
    seq![
        (" (M) ", "EH4M"),
        (" (MR.) ", "MIH4STER"),
        (" (MS.)", "MIH5Z"),
        (" (MRS.) ", "MIH4SIXZ"),
        ("(MOV)", "MUW4V"),
        ("(MACHIN)", "MAHSHIY5N"),
        ("M(M)", ""),
        ("(M)", "M"),
    ]
}

fn letter_patterns_m() -> (r: Vec<(&'static str, &'static str)>)
    ensures
        r@ == letter_table_m(),
{
    let mut v: Vec<(&'static str, &'static str)> = Vec::new();
    v.push((" (M) ", "EH4M"));
    v.push((" (MR.) ", "MIH4STER"));
    v.push((" (MS.)", "MIH5Z"));
    v.push((" (MRS.) ", "MIH4SIXZ"));
    v.push(("(MOV)", "MUW4V"));
    v.push(("(MACHIN)", "MAHSHIY5N"));
    v.push(("M(M)", ""));
    v.push(("(M)", "M"));
    v
}

/// The rules whose source starts with N.
pub open spec fn letter_table_n() -> Seq<(&'static str, &'static str)> {
    seq![
        (" (N) ", "EH4N"),
        ("E(NG)+", "NJ"),
        ("(NG)R", "NXG"),
        ("(NG)#", "NXG"),
        ("(NGL)%", "NXGUL"),
        ("(NG)", "NX"),
        ("(NK)", "NXK"),
        (" (NOW) ", "NAW4"),
        ("N(N)", ""),
        ("(NON)E", "NAH4N"),
        ("(N)", "N"),
    ]
}

fn letter_patterns_n() -> (r: Vec<(&'static str, &'static str)>)
    ensures
        r@ == letter_table_n(),
{
    let mut v: Vec<(&'static str, &'static str)> = Vec::new();
    v.push((" (N) ", "EH4N"));
    v.push(("E(NG)+", "NJ"));
    v.push(("(NG)R", "NXG"));
    v.push(("(NG)#", "NXG"));
    v.push(("(NGL)%", "NXGUL"));
    v.push(("(NG)", "NX"));
    v.push(("(NK)", "NXK"));
    v.push((" (NOW) ", "NAW4"));
    v.push(("N(N)", ""));
    v.push(("(NON)E", "NAH4N"));
    v.push(("(N)", "N"));
    v
}

/// The rules whose source starts with O, part 1.
pub open spec fn letter_table_o_1() -> Seq<(&'static str, &'static str)> {
    seq![
        (" (O) ", "OH4W"),
        ("(OF) ", "AHV"),
        (" (OH) ", "OW5"),
        ("(OROUGH)", "ER4OW"),
        ("#:(OR) ", "ER"),
        ("#:(ORS) ", "ERZ"),
        ("(OR)", "AOR"),
        (" (ONE)", "WAHN"),
        ("#(ONE) ", "WAHN"),
        ("(OW)", "OW"),
        (" (OVER)", "OW5VER"),
        ("PR(O)V", "UW4"),
        ("(OV)", "AH4V"),
        ("(O)^%", "OW5"),
        ("(O)^EN", "OW"),
        ("(O)^I#", "OW5"),
        ("(OL)D", "OW4L"),
        ("(OUGHT)", "AO5T"),
        ("(OUGH)", "AH5F"),
        (" (OU)", "AW"),
        ("H(OU)S#", "AW4"),
        ("(OUS)", "AXS"),
        ("(OUR)", "OHR"),
        ("(OULD)", "UH5D"),
        ("(OU)^L", "AH5"),
        ("(OUP)", "UW5P"),
        ("(OU)", "AW"),
        ("(OY)", "OY"),
        ("(OING)", "OW4IHNX"),
        ("(OI)", "OY5"),
    ]
}

fn letter_patterns_o_1() -> (r: Vec<(&'static str, &'static str)>)
    ensures
        r@ == letter_table_o_1(),
{
    let mut v: Vec<(&'static str, &'static str)> = Vec::new();
    v.push((" (O) ", "OH4W"));
    v.push(("(OF) ", "AHV"));
    v.push((" (OH) ", "OW5"));
    v.push(("(OROUGH)", "ER4OW"));
    v.push(("#:(OR) ", "ER"));
    v.push(("#:(ORS) ", "ERZ"));
    v.push(("(OR)", "AOR"));
    v.push((" (ONE)", "WAHN"));
    v.push(("#(ONE) ", "WAHN"));
    v.push(("(OW)", "OW"));
    v.push((" (OVER)", "OW5VER"));
    v.push(("PR(O)V", "UW4"));
    v.push(("(OV)", "AH4V"));
    v.push(("(O)^%", "OW5"));
    v.push(("(O)^EN", "OW"));
    v.push(("(O)^I#", "OW5"));
    v.push(("(OL)D", "OW4L"));
    v.push(("(OUGHT)", "AO5T"));
    v.push(("(OUGH)", "AH5F"));
    v.push((" (OU)", "AW"));
    v.push(("H(OU)S#", "AW4"));
    v.push(("(OUS)", "AXS"));
    v.push(("(OUR)", "OHR"));
    v.push(("(OULD)", "UH5D"));
    v.push(("(OU)^L", "AH5"));
    v.push(("(OUP)", "UW5P"));
    v.push(("(OU)", "AW"));
    v.push(("(OY)", "OY"));
    v.push(("(OING)", "OW4IHNX"));
    v.push(("(OI)", "OY5"));
    v
}

/// The rules whose source starts with O, part 2.
pub open spec fn letter_table_o_2() -> Seq<(&'static str, &'static str)> {
    seq![
        ("(OOR)", "OH5R"),
        ("(OOK)", "UH5K"),
        ("F(OOD)", "UW5D"),
        ("L(OOD)", "AH5D"),
        ("M(OOD)", "UW5D"),
        ("(OOD)", "UH5D"),
        ("F(OOT)", "UH5T"),
        ("(OO)", "UW5"),
        ("(O')", "OH"),
        ("(O)E", "OW"),
        ("(O) ", "OW"),
        ("(OA)", "OW4"),
        (" (ONLY)", "OW4NLIY"),
        (" (ONCE)", "WAH4NS"),
        ("(ON'T)", "OW4NT"),
        ("C(O)N", "AA"),
        ("(O)NG", "AO"),
        (" :^(O)N", "AH"),
        ("I(ON)", "UN"),
        ("#:(ON)", "UN"),
        ("#^(ON)", "UN"),
        ("(O)ST", "OW"),
        ("(OF)^", "AO4F"),
        ("(OTHER)", "AH5DHER"),
        ("R(O)B", "RAA"),
        ("^R(O):#", "OW5"),
        ("(OSS) ", "AO5S"),
        ("#:^(OM)", "AHM"),
        ("(O)", "AA"),
    ]
}

fn letter_patterns_o_2() -> (r: Vec<(&'static str, &'static str)>)
    ensures
        r@ == letter_table_o_2(),
{
    let mut v: Vec<(&'static str, &'static str)> = Vec::new();
    v.push(("(OOR)", "OH5R"));
    v.push(("(OOK)", "UH5K"));
    v.push(("F(OOD)", "UW5D"));
    v.push(("L(OOD)", "AH5D"));
    v.push(("M(OOD)", "UW5D"));
    v.push(("(OOD)", "UH5D"));
    v.push(("F(OOT)", "UH5T"));
    v.push(("(OO)", "UW5"));
    v.push(("(O')", "OH"));
    v.push(("(O)E", "OW"));
    v.push(("(O) ", "OW"));
    v.push(("(OA)", "OW4"));
    v.push((" (ONLY)", "OW4NLIY"));
    v.push((" (ONCE)", "WAH4NS"));
    v.push(("(ON'T)", "OW4NT"));
    v.push(("C(O)N", "AA"));
    v.push(("(O)NG", "AO"));
    v.push((" :^(O)N", "AH"));
    v.push(("I(ON)", "UN"));
    v.push(("#:(ON)", "UN"));
    v.push(("#^(ON)", "UN"));
    v.push(("(O)ST", "OW"));
    v.push(("(OF)^", "AO4F"));
    v.push(("(OTHER)", "AH5DHER"));
    v.push(("R(O)B", "RAA"));
    v.push(("^R(O):#", "OW5"));
    v.push(("(OSS) ", "AO5S"));
    v.push(("#:^(OM)", "AHM"));
    v.push(("(O)", "AA"));
    v
}

/// The rules whose source starts with P.
pub open spec fn letter_table_p() -> Seq<(&'static str, &'static str)> {
    seq![
        (" (P) ", "PIY4"),
        ("(PH)", "F"),
        ("(PEOPL)", "PIY5PUL"),
        ("(POW)", "PAW4"),
        ("(PUT) ", "PUHT"),
        ("(P)P", ""),
        ("(P)S", ""),
        ("(P)N", ""),
        ("(PROF)", "PROHF"),
        ("(P)", "P"),
    ]
}

fn letter_patterns_p() -> (r: Vec<(&'static str, &'static str)>)
    ensures
        r@ == letter_table_p(),
{
    let mut v: Vec<(&'static str, &'static str)> = Vec::new();
    v.push((" (P) ", "PIY4"));
    v.push(("(PH)", "F"));
    v.push(("(PEOPL)", "PIY5PUL"));
    v.push(("(POW)", "PAW4"));
    v.push(("(PUT) ", "PUHT"));
    v.push(("(P)P", ""));
    v.push(("(P)S", ""));
    v.push(("(P)N", ""));
    v.push(("(PROF)", "PROHF"));
    v.push(("(P)", "P"));
    v
}

/// The rules whose source starts with Q.
pub open spec fn letter_table_q() -> Seq<(&'static str, &'static str)> {
    seq![
        (" (Q) ", "KYUW4"),
        ("(QUAR)", "KWOH5R"),
        ("(QU)", "KW"),
        ("(Q)", "K"),
    ]
}

fn letter_patterns_q() -> (r: Vec<(&'static str, &'static str)>)
    ensures
        r@ == letter_table_q(),
{
    let mut v: Vec<(&'static str, &'static str)> = Vec::new();
    v.push((" (Q) ", "KYUW4"));
    v.push(("(QUAR)", "KWOH5R"));
    v.push(("(QU)", "KW"));
    v.push(("(Q)", "K"));
    v
}

/// The rules whose source starts with R.
pub open spec fn letter_table_r() -> Seq<(&'static str, &'static str)> {
    seq![
        (" (R) ", "AA5R"),
        (" (RE)^#", "RIY"),
        ("(R)R", ""),
        ("(R)", "R"),
    ]
}

fn letter_patterns_r() -> (r: Vec<(&'static str, &'static str)>)
    ensures
        r@ == letter_table_r(),
{
    let mut v: Vec<(&'static str, &'static str)> = Vec::new();
    v.push((" (R) ", "AA5R"));
    v.push((" (RE)^#", "RIY"));
    v.push(("(R)R", ""));
    v.push(("(R)", "R"));
    v
}

/// The rules whose source starts with S.
pub open spec fn letter_table_s() -> Seq<(&'static str, &'static str)> {
    seq![
        (" (S) ", "EH4S"),
        ("(SH)", "SH"),
        ("#(SION)", "ZHUN"),
        ("(SOME)", "SAHM"),
        ("#(SUR)#", "ZHER"),
        ("(SUR)#", "SHER"),
        ("#(SU)#", "ZHUW"),
        ("#(SSU)#", "SHUW"),
        ("#(SED)", "ZD"),
        ("#(S)#", "Z"),
        ("(SAID)", "SEHD"),
        ("^(SION)", "SHUN"),
        ("(S)S", ""),
        (".(S) ", "Z"),
        ("#:.E(S) ", "Z"),
        ("#:^#(S) ", "S"),
        ("U(S) ", "S"),
        (" :#(S) ", "Z"),
        ("##(S) ", "Z"),
        (" (SCH)", "SK"),
        ("(S)C+", ""),
        ("#(SM)", "ZUM"),
        ("#(SN)'", "ZUM"),
        ("(STLE)", "SUL"),
        ("(S)", "S"),
    ]
}

fn letter_patterns_s() -> (r: Vec<(&'static str, &'static str)>)
    ensures
        r@ == letter_table_s(),
{
    let mut v: Vec<(&'static str, &'static str)> = Vec::new();
    v.push((" (S) ", "EH4S"));
    v.push(("(SH)", "SH"));
    v.push(("#(SION)", "ZHUN"));
    v.push(("(SOME)", "SAHM"));
    v.push(("#(SUR)#", "ZHER"));
    v.push(("(SUR)#", "SHER"));
    v.push(("#(SU)#", "ZHUW"));
    v.push(("#(SSU)#", "SHUW"));
    v.push(("#(SED)", "ZD"));
    v.push(("#(S)#", "Z"));
    v.push(("(SAID)", "SEHD"));
    v.push(("^(SION)", "SHUN"));
    v.push(("(S)S", ""));
    v.push((".(S) ", "Z"));
    v.push(("#:.E(S) ", "Z"));
    v.push(("#:^#(S) ", "S"));
    v.push(("U(S) ", "S"));
    v.push((" :#(S) ", "Z"));
    v.push(("##(S) ", "Z"));
    v.push((" (SCH)", "SK"));
    v.push(("(S)C+", ""));
    v.push(("#(SM)", "ZUM"));
    v.push(("#(SN)'", "ZUM"));
    v.push(("(STLE)", "SUL"));
    v.push(("(S)", "S"));
    v
}

/// The rules whose source starts with T, part 1.
pub open spec fn letter_table_t_1() -> Seq<(&'static str, &'static str)> {
    seq![
        (" (T) ", "TIY4"),
        (" (THE) #", "DHIY"),
        (" (THE) ", "DHAX"),
        ("(TO) ", "TUX"),
        (" (THAT)", "DHAET"),
        (" (THIS) ", "DHIHS"),
        (" (THEY)", "DHEY"),
        (" (THERE)", "DHEHR"),
        ("(THER)", "DHER"),
        ("(THEIR)", "DHEHR"),
        (" (THAN) ", "DHAEN"),
        (" (THEM) ", "DHAEN"),
        ("(THESE) ", "DHIYZ"),
        (" (THEN)", "DHEHN"),
        ("(THROUGH)", "THRUW4"),
        ("(THOSE)", "DHOHZ"),
        ("(THOUGH) ", "DHOW"),
        ("(TODAY)", "TUXDEY"),
        ("(TOMO)RROW", "TUMAA5"),
        ("(TO)TAL", "TOW5"),
        (" (THUS)", "DHAH4S"),
        ("(TH)", "TH"),
        ("#:(TED) ", "TIXD"),
        ("S(TI)#N", "CH"),
        ("(TI)O", "SH"),
        ("(TI)A", "SH"),
        ("(TIEN)", "SHUN"),
        ("(TUR)#", "CHER"),
        ("(TU)A", "CHUW"),
        (" (TWO)", "TUW"),
    ]
}

fn letter_patterns_t_1() -> (r: Vec<(&'static str, &'static str)>)
    ensures
        r@ == letter_table_t_1(),
{
    let mut v: Vec<(&'static str, &'static str)> = Vec::new();
    v.push((" (T) ", "TIY4"));
    v.push((" (THE) #", "DHIY"));
    v.push((" (THE) ", "DHAX"));
    v.push(("(TO) ", "TUX"));
    v.push((" (THAT)", "DHAET"));
    v.push((" (THIS) ", "DHIHS"));
    v.push((" (THEY)", "DHEY"));
    v.push((" (THERE)", "DHEHR"));
    v.push(("(THER)", "DHER"));
    v.push(("(THEIR)", "DHEHR"));
    v.push((" (THAN) ", "DHAEN"));
    v.push((" (THEM) ", "DHAEN"));
    v.push(("(THESE) ", "DHIYZ"));
    v.push((" (THEN)", "DHEHN"));
    v.push(("(THROUGH)", "THRUW4"));
    v.push(("(THOSE)", "DHOHZ"));
    v.push(("(THOUGH) ", "DHOW"));
    v.push(("(TODAY)", "TUXDEY"));
    v.push(("(TOMO)RROW", "TUMAA5"));
    v.push(("(TO)TAL", "TOW5"));
    v.push((" (THUS)", "DHAH4S"));
    v.push(("(TH)", "TH"));
    v.push(("#:(TED) ", "TIXD"));
    v.push(("S(TI)#N", "CH"));
    v.push(("(TI)O", "SH"));
    v.push(("(TI)A", "SH"));
    v.push(("(TIEN)", "SHUN"));
    v.push(("(TUR)#", "CHER"));
    v.push(("(TU)A", "CHUW"));
    v.push((" (TWO)", "TUW"));
    v
}

/// The rules whose source starts with T, part 2.
pub open spec fn letter_table_t_2() -> Seq<(&'static str, &'static str)> {
    seq![
        ("&(T)EN ", ""),
        ("(T)", "T"),
    ]
}

fn letter_patterns_t_2() -> (r: Vec<(&'static str, &'static str)>)
    ensures
        r@ == letter_table_t_2(),
{
    let mut v: Vec<(&'static str, &'static str)> = Vec::new();
    v.push(("&(T)EN ", ""));
    v.push(("(T)", "T"));
    v
}

/// The rules whose source starts with U.
pub open spec fn letter_table_u() -> Seq<(&'static str, &'static str)> {
    seq![
        (" (U) ", "YUW4"),
        (" (UN)I", "YUWN"),
        (" (UN)", "AHN"),
        (" (UPON)", "AXPAON"),
        ("@(UR)#", "UH4R"),
        ("(UR)#", "YUH4R"),
        ("(UR)", "ER"),
        ("(U)^ ", "AH"),
        ("(U)^^", "AH5"),
        ("(UY)", "AY5"),
        (" G(U)#", ""),
        ("G(U)%", ""),
        ("G(U)#", "W"),
        ("#N(U)", "YUW"),
        ("@(U)", "UW"),
        ("(U)", "YUW"),
    ]
}

fn letter_patterns_u() -> (r: Vec<(&'static str, &'static str)>)
    ensures
        r@ == letter_table_u(),
{
    let mut v: Vec<(&'static str, &'static str)> = Vec::new();
    v.push((" (U) ", "YUW4"));
    v.push((" (UN)I", "YUWN"));
    v.push((" (UN)", "AHN"));
    v.push((" (UPON)", "AXPAON"));
    v.push(("@(UR)#", "UH4R"));
    v.push(("(UR)#", "YUH4R"));
    v.push(("(UR)", "ER"));
    v.push(("(U)^ ", "AH"));
    v.push(("(U)^^", "AH5"));
    v.push(("(UY)", "AY5"));
    v.push((" G(U)#", ""));
    v.push(("G(U)%", ""));
    v.push(("G(U)#", "W"));
    v.push(("#N(U)", "YUW"));
    v.push(("@(U)", "UW"));
    v.push(("(U)", "YUW"));
    v
}

/// The rules whose source starts with V.
pub open spec fn letter_table_v() -> Seq<(&'static str, &'static str)> {
    seq![
        (" (V) ", "VIY4"),
        ("(VIEW)", "VYUW5"),
        ("(V)", "V"),
    ]
}

fn letter_patterns_v() -> (r: Vec<(&'static str, &'static str)>)
    ensures
        r@ == letter_table_v(),
{
    let mut v: Vec<(&'static str, &'static str)> = Vec::new();
    v.push((" (V) ", "VIY4"));
    v.push(("(VIEW)", "VYUW5"));
    v.push(("(V)", "V"));
    v
}

/// The rules whose source starts with W.
pub open spec fn letter_table_w() -> Seq<(&'static str, &'static str)> {
    seq![
        (" (W) ", "DAH4BULYUW"),
        (" (WERE)", "WER"),
        ("(WA)SH", "WAA"),
        ("(WA)ST", "WEY"),
        ("(WA)S", "WAH"),
        ("(WA)T", "WAA"),
        ("(WHERE)", "WHEHR"),
        ("(WHAT)", "WHAHT"),
        ("(WHOL)", "/HOWL"),
        ("(WHO)", "/HUW"),
        ("(WH)", "WH"),
        ("(WAR)#", "WEHR"),
        ("(WAR)", "WAOR"),
        ("(WOR)^", "WER"),
        ("(WR)", "R"),
        ("(WOM)A", "WUHM"),
        ("(WOM)E", "WIHM"),
        ("(WEA)R", "WEH"),
        ("(WANT)", "WAA5NT"),
        ("ANS(WER)", "ER"),
        ("(W)", "W"),
    ]
}

fn letter_patterns_w() -> (r: Vec<(&'static str, &'static str)>)
    ensures
        r@ == letter_table_w(),
{
    let mut v: Vec<(&'static str, &'static str)> = Vec::new();
    v.push((" (W) ", "DAH4BULYUW"));
    v.push((" (WERE)", "WER"));
    v.push(("(WA)SH", "WAA"));
    v.push(("(WA)ST", "WEY"));
    v.push(("(WA)S", "WAH"));
    v.push(("(WA)T", "WAA"));
    v.push(("(WHERE)", "WHEHR"));
    v.push(("(WHAT)", "WHAHT"));
    v.push(("(WHOL)", "/HOWL"));
    v.push(("(WHO)", "/HUW"));
    v.push(("(WH)", "WH"));
    v.push(("(WAR)#", "WEHR"));
    v.push(("(WAR)", "WAOR"));
    v.push(("(WOR)^", "WER"));
    v.push(("(WR)", "R"));
    v.push(("(WOM)A", "WUHM"));
    v.push(("(WOM)E", "WIHM"));
    v.push(("(WEA)R", "WEH"));
    v.push(("(WANT)", "WAA5NT"));
    v.push(("ANS(WER)", "ER"));
    v.push(("(W)", "W"));
    v
}

/// The rules whose source starts with X.
pub open spec fn letter_table_x() -> Seq<(&'static str, &'static str)> {
    seq![
        (" (X) ", "EH4KR"),
        (" (X)", "Z"),
        ("(X)", "KS"),
    ]
}

fn letter_patterns_x() -> (r: Vec<(&'static str, &'static str)>)
    ensures
        r@ == letter_table_x(),
{
    let mut v: Vec<(&'static str, &'static str)> = Vec::new();
    v.push((" (X) ", "EH4KR"));
    v.push((" (X)", "Z"));
    v.push(("(X)", "KS"));
    v
}

/// The rules whose source starts with Y.
pub open spec fn letter_table_y() -> Seq<(&'static str, &'static str)> {
    seq![
        (" (Y) ", "WAY4"),
        ("(YOUNG)", "YAHNX"),
        (" (YOUR)", "YOHR"),
        (" (YOU)", "YUW"),
        (" (YES)", "YEHS"),
        (" (Y)", "Y"),
        ("F(Y)", "AY"),
        ("PS(YCH)", "AYK"),
        ("#:^(Y)", "IY"),
        ("#:^(Y)I", "IY"),
        (" :(Y) ", "AY"),
        (" :(Y)#", "AY"),
        (" :(Y)^+:#", "IH"),
        (" :(Y)^#", "AY"),
        ("(Y)", "IH"),
    ]
}

fn letter_patterns_y() -> (r: Vec<(&'static str, &'static str)>)
    ensures
        r@ == letter_table_y(),
{
    let mut v: Vec<(&'static str, &'static str)> = Vec::new();
    v.push((" (Y) ", "WAY4"));
    v.push(("(YOUNG)", "YAHNX"));
    v.push((" (YOUR)", "YOHR"));
    v.push((" (YOU)", "YUW"));
    v.push((" (YES)", "YEHS"));
    v.push((" (Y)", "Y"));
    v.push(("F(Y)", "AY"));
    v.push(("PS(YCH)", "AYK"));
    v.push(("#:^(Y)", "IY"));
    v.push(("#:^(Y)I", "IY"));
    v.push((" :(Y) ", "AY"));
    v.push((" :(Y)#", "AY"));
    v.push((" :(Y)^+:#", "IH"));
    v.push((" :(Y)^#", "AY"));
    v.push(("(Y)", "IH"));
    v
}

/// The rules whose source starts with Z.
pub open spec fn letter_table_z() -> Seq<(&'static str, &'static str)> {
    seq![
        (" (Z) ", "ZIY4"),
        ("(Z)", "Z"),
    ]
}

fn letter_patterns_z() -> (r: Vec<(&'static str, &'static str)>)
    ensures
        r@ == letter_table_z(),
{
    let mut v: Vec<(&'static str, &'static str)> = Vec::new();
    v.push((" (Z) ", "ZIY4"));
    v.push(("(Z)", "Z"));
    v
}

/// The rules for letters, tried in order among those whose source starts
/// with the letter at hand.
pub open spec fn letter_table() -> Seq<(&'static str, &'static str)> {
    letter_table_a_1()
        + letter_table_a_2()
        + letter_table_b()
        + letter_table_c()
        + letter_table_d()
        + letter_table_e_1()
        + letter_table_e_2()
        + letter_table_f()
        + letter_table_g()
        + letter_table_h()
        + letter_table_i_1()
        + letter_table_i_2()
        + letter_table_j()
        + letter_table_k()
        + letter_table_l()
        + letter_table_m()
        + letter_table_n()
        + letter_table_o_1()
        + letter_table_o_2()
        + letter_table_p()
        + letter_table_q()
        + letter_table_r()
        + letter_table_s()
        + letter_table_t_1()
        + letter_table_t_2()
        + letter_table_u()
        + letter_table_v()
        + letter_table_w()
        + letter_table_x()
        + letter_table_y()
        + letter_table_z()
}

pub fn letter_patterns() -> (r: Vec<(&'static str, &'static str)>)
    ensures
        r@ == letter_table(),
{
    let mut v: Vec<(&'static str, &'static str)> = Vec::new();
    let mut part = letter_patterns_a_1();
    v.append(&mut part);
    let mut part = letter_patterns_a_2();
    v.append(&mut part);
    let mut part = letter_patterns_b();
    v.append(&mut part);
    let mut part = letter_patterns_c();
    v.append(&mut part);
    let mut part = letter_patterns_d();
    v.append(&mut part);
    let mut part = letter_patterns_e_1();
    v.append(&mut part);
    let mut part = letter_patterns_e_2();
    v.append(&mut part);
    let mut part = letter_patterns_f();
    v.append(&mut part);
    let mut part = letter_patterns_g();
    v.append(&mut part);
    let mut part = letter_patterns_h();
    v.append(&mut part);
    let mut part = letter_patterns_i_1();
    v.append(&mut part);
    let mut part = letter_patterns_i_2();
    v.append(&mut part);
    let mut part = letter_patterns_j();
    v.append(&mut part);
    let mut part = letter_patterns_k();
    v.append(&mut part);
    let mut part = letter_patterns_l();
    v.append(&mut part);
    let mut part = letter_patterns_m();
    v.append(&mut part);
    let mut part = letter_patterns_n();
    v.append(&mut part);
    let mut part = letter_patterns_o_1();
    v.append(&mut part);
    let mut part = letter_patterns_o_2();
    v.append(&mut part);
    let mut part = letter_patterns_p();
    v.append(&mut part);
    let mut part = letter_patterns_q();
    v.append(&mut part);
    let mut part = letter_patterns_r();
    v.append(&mut part);
    let mut part = letter_patterns_s();
    v.append(&mut part);
    let mut part = letter_patterns_t_1();
    v.append(&mut part);
    let mut part = letter_patterns_t_2();
    v.append(&mut part);
    let mut part = letter_patterns_u();
    v.append(&mut part);
    let mut part = letter_patterns_v();
    v.append(&mut part);
    let mut part = letter_patterns_w();
    v.append(&mut part);
    let mut part = letter_patterns_x();
    v.append(&mut part);
    let mut part = letter_patterns_y();
    v.append(&mut part);
    let mut part = letter_patterns_z();
    v.append(&mut part);
    assert(v@ =~= letter_table());
    v
}

} // verus!
