use vstd::prelude::*;
use crate::utils::constants::alpha_spec;
use crate::utils::galois_field::{gf128_mul_spec, gf_lambda_pow_spec, gf_one, mulx, mulx_pow, shift_add_mul};
use crate::utils::gf_assoc::lemma_gf128_mul_shift_add;
use crate::utils::gf_laws::lemma_gf128_mul_comm;
use crate::utils::math::{bit_of, bits_of_bytes, xor_seq};

verus! {

#[verifier::opaque]
spec fn bytes_x_1() -> bool {
    (((((((13u8 << 1u8) as u8) == 26u8) && ((((206u8 << 1u8) | (13u8 >> 7u8)) as u8) == 156u8)) && (((((96u8 << 1u8) | (206u8 >> 7u8)) as u8) == 193u8) && ((((85u8 << 1u8) | (96u8 >> 7u8)) as u8) == 170u8))) && ((((((172u8 << 1u8) | (85u8 >> 7u8)) as u8) == 88u8) && ((((232u8 << 1u8) | (172u8 >> 7u8)) as u8) == 209u8)) && (((((63u8 << 1u8) | (232u8 >> 7u8)) as u8) == 127u8) && ((((161u8 << 1u8) | (63u8 >> 7u8)) as u8) == 66u8)))) && (((((((28u8 << 1u8) | (161u8 >> 7u8)) as u8) == 57u8) && ((((154u8 << 1u8) | (28u8 >> 7u8)) as u8) == 52u8)) && (((((151u8 << 1u8) | (154u8 >> 7u8)) as u8) == 47u8) && ((((169u8 << 1u8) | (151u8 >> 7u8)) as u8) == 83u8))) && ((((((85u8 << 1u8) | (169u8 >> 7u8)) as u8) == 171u8) && ((((133u8 << 1u8) | (85u8 >> 7u8)) as u8) == 10u8)) && (((((61u8 << 1u8) | (133u8 >> 7u8)) as u8) == 123u8) && (((((5u8 << 1u8) | (61u8 >> 7u8)) as u8) == 10u8) && (((5u8 >> 7u8) & 1u8) == 0u8))))))
}

#[verifier::opaque]
spec fn bytes_x_2() -> bool {
    (((((((26u8 << 1u8) as u8) == 52u8) && ((((156u8 << 1u8) | (26u8 >> 7u8)) as u8) == 56u8)) && (((((193u8 << 1u8) | (156u8 >> 7u8)) as u8) == 131u8) && ((((170u8 << 1u8) | (193u8 >> 7u8)) as u8) == 85u8))) && ((((((88u8 << 1u8) | (170u8 >> 7u8)) as u8) == 177u8) && ((((209u8 << 1u8) | (88u8 >> 7u8)) as u8) == 162u8)) && (((((127u8 << 1u8) | (209u8 >> 7u8)) as u8) == 255u8) && ((((66u8 << 1u8) | (127u8 >> 7u8)) as u8) == 132u8)))) && (((((((57u8 << 1u8) | (66u8 >> 7u8)) as u8) == 114u8) && ((((52u8 << 1u8) | (57u8 >> 7u8)) as u8) == 104u8)) && (((((47u8 << 1u8) | (52u8 >> 7u8)) as u8) == 94u8) && ((((83u8 << 1u8) | (47u8 >> 7u8)) as u8) == 166u8))) && ((((((171u8 << 1u8) | (83u8 >> 7u8)) as u8) == 86u8) && ((((10u8 << 1u8) | (171u8 >> 7u8)) as u8) == 21u8)) && (((((123u8 << 1u8) | (10u8 >> 7u8)) as u8) == 246u8) && (((((10u8 << 1u8) | (123u8 >> 7u8)) as u8) == 20u8) && (((10u8 >> 7u8) & 1u8) == 0u8))))))
}

#[verifier::opaque]
spec fn bytes_x_3() -> bool {
    (((((((52u8 << 1u8) as u8) == 104u8) && ((((56u8 << 1u8) | (52u8 >> 7u8)) as u8) == 112u8)) && (((((131u8 << 1u8) | (56u8 >> 7u8)) as u8) == 6u8) && ((((85u8 << 1u8) | (131u8 >> 7u8)) as u8) == 171u8))) && ((((((177u8 << 1u8) | (85u8 >> 7u8)) as u8) == 98u8) && ((((162u8 << 1u8) | (177u8 >> 7u8)) as u8) == 69u8)) && (((((255u8 << 1u8) | (162u8 >> 7u8)) as u8) == 255u8) && ((((132u8 << 1u8) | (255u8 >> 7u8)) as u8) == 9u8)))) && (((((((114u8 << 1u8) | (132u8 >> 7u8)) as u8) == 229u8) && ((((104u8 << 1u8) | (114u8 >> 7u8)) as u8) == 208u8)) && (((((94u8 << 1u8) | (104u8 >> 7u8)) as u8) == 188u8) && ((((166u8 << 1u8) | (94u8 >> 7u8)) as u8) == 76u8))) && ((((((86u8 << 1u8) | (166u8 >> 7u8)) as u8) == 173u8) && ((((21u8 << 1u8) | (86u8 >> 7u8)) as u8) == 42u8)) && (((((246u8 << 1u8) | (21u8 >> 7u8)) as u8) == 236u8) && (((((20u8 << 1u8) | (246u8 >> 7u8)) as u8) == 41u8) && (((20u8 >> 7u8) & 1u8) == 0u8))))))
}

#[verifier::opaque]
spec fn bytes_x_4() -> bool {
    (((((((104u8 << 1u8) as u8) == 208u8) && ((((112u8 << 1u8) | (104u8 >> 7u8)) as u8) == 224u8)) && (((((6u8 << 1u8) | (112u8 >> 7u8)) as u8) == 12u8) && ((((171u8 << 1u8) | (6u8 >> 7u8)) as u8) == 86u8))) && ((((((98u8 << 1u8) | (171u8 >> 7u8)) as u8) == 197u8) && ((((69u8 << 1u8) | (98u8 >> 7u8)) as u8) == 138u8)) && (((((255u8 << 1u8) | (69u8 >> 7u8)) as u8) == 254u8) && ((((9u8 << 1u8) | (255u8 >> 7u8)) as u8) == 19u8)))) && (((((((229u8 << 1u8) | (9u8 >> 7u8)) as u8) == 202u8) && ((((208u8 << 1u8) | (229u8 >> 7u8)) as u8) == 161u8)) && (((((188u8 << 1u8) | (208u8 >> 7u8)) as u8) == 121u8) && ((((76u8 << 1u8) | (188u8 >> 7u8)) as u8) == 153u8))) && ((((((173u8 << 1u8) | (76u8 >> 7u8)) as u8) == 90u8) && ((((42u8 << 1u8) | (173u8 >> 7u8)) as u8) == 85u8)) && (((((236u8 << 1u8) | (42u8 >> 7u8)) as u8) == 216u8) && (((((41u8 << 1u8) | (236u8 >> 7u8)) as u8) == 83u8) && (((41u8 >> 7u8) & 1u8) == 0u8))))))
}

#[verifier::opaque]
spec fn bytes_x_5() -> bool {
    (((((((208u8 << 1u8) as u8) == 160u8) && ((((224u8 << 1u8) | (208u8 >> 7u8)) as u8) == 193u8)) && (((((12u8 << 1u8) | (224u8 >> 7u8)) as u8) == 25u8) && ((((86u8 << 1u8) | (12u8 >> 7u8)) as u8) == 172u8))) && ((((((197u8 << 1u8) | (86u8 >> 7u8)) as u8) == 138u8) && ((((138u8 << 1u8) | (197u8 >> 7u8)) as u8) == 21u8)) && (((((254u8 << 1u8) | (138u8 >> 7u8)) as u8) == 253u8) && ((((19u8 << 1u8) | (254u8 >> 7u8)) as u8) == 39u8)))) && (((((((202u8 << 1u8) | (19u8 >> 7u8)) as u8) == 148u8) && ((((161u8 << 1u8) | (202u8 >> 7u8)) as u8) == 67u8)) && (((((121u8 << 1u8) | (161u8 >> 7u8)) as u8) == 243u8) && ((((153u8 << 1u8) | (121u8 >> 7u8)) as u8) == 50u8))) && ((((((90u8 << 1u8) | (153u8 >> 7u8)) as u8) == 181u8) && ((((85u8 << 1u8) | (90u8 >> 7u8)) as u8) == 170u8)) && (((((216u8 << 1u8) | (85u8 >> 7u8)) as u8) == 176u8) && (((((83u8 << 1u8) | (216u8 >> 7u8)) as u8) == 167u8) && (((83u8 >> 7u8) & 1u8) == 0u8))))))
}

#[verifier::opaque]
spec fn bytes_x_6() -> bool {
    (((((((160u8 << 1u8) as u8) == 64u8) && ((((193u8 << 1u8) | (160u8 >> 7u8)) as u8) == 131u8)) && (((((25u8 << 1u8) | (193u8 >> 7u8)) as u8) == 51u8) && ((((172u8 << 1u8) | (25u8 >> 7u8)) as u8) == 88u8))) && ((((((138u8 << 1u8) | (172u8 >> 7u8)) as u8) == 21u8) && ((((21u8 << 1u8) | (138u8 >> 7u8)) as u8) == 43u8)) && (((((253u8 << 1u8) | (21u8 >> 7u8)) as u8) == 250u8) && (((((39u8 << 1u8) | (253u8 >> 7u8)) as u8) == 79u8) && ((((148u8 << 1u8) | (39u8 >> 7u8)) as u8) == 40u8))))) && (((((((67u8 << 1u8) | (148u8 >> 7u8)) as u8) == 135u8) && ((((243u8 << 1u8) | (67u8 >> 7u8)) as u8) == 230u8)) && (((((50u8 << 1u8) | (243u8 >> 7u8)) as u8) == 101u8) && ((((181u8 << 1u8) | (50u8 >> 7u8)) as u8) == 106u8))) && ((((((170u8 << 1u8) | (181u8 >> 7u8)) as u8) == 85u8) && ((((176u8 << 1u8) | (170u8 >> 7u8)) as u8) == 97u8)) && (((((167u8 << 1u8) | (176u8 >> 7u8)) as u8) == 79u8) && ((((167u8 >> 7u8) & 1u8) == 1u8) && ((64u8 ^ 0x87u8) == 199u8))))))
}

#[verifier::opaque]
spec fn bytes_x_7() -> bool {
    (((((((199u8 << 1u8) as u8) == 142u8) && ((((131u8 << 1u8) | (199u8 >> 7u8)) as u8) == 7u8)) && (((((51u8 << 1u8) | (131u8 >> 7u8)) as u8) == 103u8) && ((((88u8 << 1u8) | (51u8 >> 7u8)) as u8) == 176u8))) && ((((((21u8 << 1u8) | (88u8 >> 7u8)) as u8) == 42u8) && ((((43u8 << 1u8) | (21u8 >> 7u8)) as u8) == 86u8)) && (((((250u8 << 1u8) | (43u8 >> 7u8)) as u8) == 244u8) && ((((79u8 << 1u8) | (250u8 >> 7u8)) as u8) == 159u8)))) && (((((((40u8 << 1u8) | (79u8 >> 7u8)) as u8) == 80u8) && ((((135u8 << 1u8) | (40u8 >> 7u8)) as u8) == 14u8)) && (((((230u8 << 1u8) | (135u8 >> 7u8)) as u8) == 205u8) && ((((101u8 << 1u8) | (230u8 >> 7u8)) as u8) == 203u8))) && ((((((106u8 << 1u8) | (101u8 >> 7u8)) as u8) == 212u8) && ((((85u8 << 1u8) | (106u8 >> 7u8)) as u8) == 170u8)) && (((((97u8 << 1u8) | (85u8 >> 7u8)) as u8) == 194u8) && (((((79u8 << 1u8) | (97u8 >> 7u8)) as u8) == 158u8) && (((79u8 >> 7u8) & 1u8) == 0u8))))))
}

#[verifier::opaque]
spec fn bytes_x_8() -> bool {
    (((((((142u8 << 1u8) as u8) == 28u8) && ((((7u8 << 1u8) | (142u8 >> 7u8)) as u8) == 15u8)) && (((((103u8 << 1u8) | (7u8 >> 7u8)) as u8) == 206u8) && ((((176u8 << 1u8) | (103u8 >> 7u8)) as u8) == 96u8))) && ((((((42u8 << 1u8) | (176u8 >> 7u8)) as u8) == 85u8) && ((((86u8 << 1u8) | (42u8 >> 7u8)) as u8) == 172u8)) && (((((244u8 << 1u8) | (86u8 >> 7u8)) as u8) == 232u8) && (((((159u8 << 1u8) | (244u8 >> 7u8)) as u8) == 63u8) && ((((80u8 << 1u8) | (159u8 >> 7u8)) as u8) == 161u8))))) && (((((((14u8 << 1u8) | (80u8 >> 7u8)) as u8) == 28u8) && ((((205u8 << 1u8) | (14u8 >> 7u8)) as u8) == 154u8)) && (((((203u8 << 1u8) | (205u8 >> 7u8)) as u8) == 151u8) && ((((212u8 << 1u8) | (203u8 >> 7u8)) as u8) == 169u8))) && ((((((170u8 << 1u8) | (212u8 >> 7u8)) as u8) == 85u8) && ((((194u8 << 1u8) | (170u8 >> 7u8)) as u8) == 133u8)) && (((((158u8 << 1u8) | (194u8 >> 7u8)) as u8) == 61u8) && ((((158u8 >> 7u8) & 1u8) == 1u8) && ((28u8 ^ 0x87u8) == 155u8))))))
}

#[verifier::opaque]
spec fn bytes_x_9() -> bool {
    (((((((155u8 << 1u8) as u8) == 54u8) && ((((15u8 << 1u8) | (155u8 >> 7u8)) as u8) == 31u8)) && (((((206u8 << 1u8) | (15u8 >> 7u8)) as u8) == 156u8) && ((((96u8 << 1u8) | (206u8 >> 7u8)) as u8) == 193u8))) && ((((((85u8 << 1u8) | (96u8 >> 7u8)) as u8) == 170u8) && ((((172u8 << 1u8) | (85u8 >> 7u8)) as u8) == 88u8)) && (((((232u8 << 1u8) | (172u8 >> 7u8)) as u8) == 209u8) && ((((63u8 << 1u8) | (232u8 >> 7u8)) as u8) == 127u8)))) && (((((((161u8 << 1u8) | (63u8 >> 7u8)) as u8) == 66u8) && ((((28u8 << 1u8) | (161u8 >> 7u8)) as u8) == 57u8)) && (((((154u8 << 1u8) | (28u8 >> 7u8)) as u8) == 52u8) && ((((151u8 << 1u8) | (154u8 >> 7u8)) as u8) == 47u8))) && ((((((169u8 << 1u8) | (151u8 >> 7u8)) as u8) == 83u8) && ((((85u8 << 1u8) | (169u8 >> 7u8)) as u8) == 171u8)) && (((((133u8 << 1u8) | (85u8 >> 7u8)) as u8) == 10u8) && (((((61u8 << 1u8) | (133u8 >> 7u8)) as u8) == 123u8) && (((61u8 >> 7u8) & 1u8) == 0u8))))))
}

#[verifier::opaque]
spec fn bytes_x_10() -> bool {
    (((((((54u8 << 1u8) as u8) == 108u8) && ((((31u8 << 1u8) | (54u8 >> 7u8)) as u8) == 62u8)) && (((((156u8 << 1u8) | (31u8 >> 7u8)) as u8) == 56u8) && ((((193u8 << 1u8) | (156u8 >> 7u8)) as u8) == 131u8))) && ((((((170u8 << 1u8) | (193u8 >> 7u8)) as u8) == 85u8) && ((((88u8 << 1u8) | (170u8 >> 7u8)) as u8) == 177u8)) && (((((209u8 << 1u8) | (88u8 >> 7u8)) as u8) == 162u8) && ((((127u8 << 1u8) | (209u8 >> 7u8)) as u8) == 255u8)))) && (((((((66u8 << 1u8) | (127u8 >> 7u8)) as u8) == 132u8) && ((((57u8 << 1u8) | (66u8 >> 7u8)) as u8) == 114u8)) && (((((52u8 << 1u8) | (57u8 >> 7u8)) as u8) == 104u8) && ((((47u8 << 1u8) | (52u8 >> 7u8)) as u8) == 94u8))) && ((((((83u8 << 1u8) | (47u8 >> 7u8)) as u8) == 166u8) && ((((171u8 << 1u8) | (83u8 >> 7u8)) as u8) == 86u8)) && (((((10u8 << 1u8) | (171u8 >> 7u8)) as u8) == 21u8) && (((((123u8 << 1u8) | (10u8 >> 7u8)) as u8) == 246u8) && (((123u8 >> 7u8) & 1u8) == 0u8))))))
}

#[verifier::opaque]
spec fn bytes_x_11() -> bool {
    (((((((108u8 << 1u8) as u8) == 216u8) && ((((62u8 << 1u8) | (108u8 >> 7u8)) as u8) == 124u8)) && (((((56u8 << 1u8) | (62u8 >> 7u8)) as u8) == 112u8) && ((((131u8 << 1u8) | (56u8 >> 7u8)) as u8) == 6u8))) && ((((((85u8 << 1u8) | (131u8 >> 7u8)) as u8) == 171u8) && ((((177u8 << 1u8) | (85u8 >> 7u8)) as u8) == 98u8)) && (((((162u8 << 1u8) | (177u8 >> 7u8)) as u8) == 69u8) && (((((255u8 << 1u8) | (162u8 >> 7u8)) as u8) == 255u8) && ((((132u8 << 1u8) | (255u8 >> 7u8)) as u8) == 9u8))))) && (((((((114u8 << 1u8) | (132u8 >> 7u8)) as u8) == 229u8) && ((((104u8 << 1u8) | (114u8 >> 7u8)) as u8) == 208u8)) && (((((94u8 << 1u8) | (104u8 >> 7u8)) as u8) == 188u8) && ((((166u8 << 1u8) | (94u8 >> 7u8)) as u8) == 76u8))) && ((((((86u8 << 1u8) | (166u8 >> 7u8)) as u8) == 173u8) && ((((21u8 << 1u8) | (86u8 >> 7u8)) as u8) == 42u8)) && (((((246u8 << 1u8) | (21u8 >> 7u8)) as u8) == 236u8) && ((((246u8 >> 7u8) & 1u8) == 1u8) && ((216u8 ^ 0x87u8) == 95u8))))))
}

#[verifier::opaque]
spec fn bytes_x_12() -> bool {
    (((((((95u8 << 1u8) as u8) == 190u8) && ((((124u8 << 1u8) | (95u8 >> 7u8)) as u8) == 248u8)) && (((((112u8 << 1u8) | (124u8 >> 7u8)) as u8) == 224u8) && ((((6u8 << 1u8) | (112u8 >> 7u8)) as u8) == 12u8))) && ((((((171u8 << 1u8) | (6u8 >> 7u8)) as u8) == 86u8) && ((((98u8 << 1u8) | (171u8 >> 7u8)) as u8) == 197u8)) && (((((69u8 << 1u8) | (98u8 >> 7u8)) as u8) == 138u8) && (((((255u8 << 1u8) | (69u8 >> 7u8)) as u8) == 254u8) && ((((9u8 << 1u8) | (255u8 >> 7u8)) as u8) == 19u8))))) && (((((((229u8 << 1u8) | (9u8 >> 7u8)) as u8) == 202u8) && ((((208u8 << 1u8) | (229u8 >> 7u8)) as u8) == 161u8)) && (((((188u8 << 1u8) | (208u8 >> 7u8)) as u8) == 121u8) && ((((76u8 << 1u8) | (188u8 >> 7u8)) as u8) == 153u8))) && ((((((173u8 << 1u8) | (76u8 >> 7u8)) as u8) == 90u8) && ((((42u8 << 1u8) | (173u8 >> 7u8)) as u8) == 85u8)) && (((((236u8 << 1u8) | (42u8 >> 7u8)) as u8) == 216u8) && ((((236u8 >> 7u8) & 1u8) == 1u8) && ((190u8 ^ 0x87u8) == 57u8))))))
}

#[verifier::opaque]
spec fn bytes_x_13() -> bool {
    (((((((57u8 << 1u8) as u8) == 114u8) && ((((248u8 << 1u8) | (57u8 >> 7u8)) as u8) == 240u8)) && (((((224u8 << 1u8) | (248u8 >> 7u8)) as u8) == 193u8) && ((((12u8 << 1u8) | (224u8 >> 7u8)) as u8) == 25u8))) && ((((((86u8 << 1u8) | (12u8 >> 7u8)) as u8) == 172u8) && ((((197u8 << 1u8) | (86u8 >> 7u8)) as u8) == 138u8)) && (((((138u8 << 1u8) | (197u8 >> 7u8)) as u8) == 21u8) && (((((254u8 << 1u8) | (138u8 >> 7u8)) as u8) == 253u8) && ((((19u8 << 1u8) | (254u8 >> 7u8)) as u8) == 39u8))))) && (((((((202u8 << 1u8) | (19u8 >> 7u8)) as u8) == 148u8) && ((((161u8 << 1u8) | (202u8 >> 7u8)) as u8) == 67u8)) && (((((121u8 << 1u8) | (161u8 >> 7u8)) as u8) == 243u8) && ((((153u8 << 1u8) | (121u8 >> 7u8)) as u8) == 50u8))) && ((((((90u8 << 1u8) | (153u8 >> 7u8)) as u8) == 181u8) && ((((85u8 << 1u8) | (90u8 >> 7u8)) as u8) == 170u8)) && (((((216u8 << 1u8) | (85u8 >> 7u8)) as u8) == 176u8) && ((((216u8 >> 7u8) & 1u8) == 1u8) && ((114u8 ^ 0x87u8) == 245u8))))))
}

#[verifier::opaque]
spec fn bytes_x_14() -> bool {
    (((((((245u8 << 1u8) as u8) == 234u8) && ((((240u8 << 1u8) | (245u8 >> 7u8)) as u8) == 225u8)) && (((((193u8 << 1u8) | (240u8 >> 7u8)) as u8) == 131u8) && ((((25u8 << 1u8) | (193u8 >> 7u8)) as u8) == 51u8))) && ((((((172u8 << 1u8) | (25u8 >> 7u8)) as u8) == 88u8) && ((((138u8 << 1u8) | (172u8 >> 7u8)) as u8) == 21u8)) && (((((21u8 << 1u8) | (138u8 >> 7u8)) as u8) == 43u8) && (((((253u8 << 1u8) | (21u8 >> 7u8)) as u8) == 250u8) && ((((39u8 << 1u8) | (253u8 >> 7u8)) as u8) == 79u8))))) && (((((((148u8 << 1u8) | (39u8 >> 7u8)) as u8) == 40u8) && ((((67u8 << 1u8) | (148u8 >> 7u8)) as u8) == 135u8)) && (((((243u8 << 1u8) | (67u8 >> 7u8)) as u8) == 230u8) && ((((50u8 << 1u8) | (243u8 >> 7u8)) as u8) == 101u8))) && ((((((181u8 << 1u8) | (50u8 >> 7u8)) as u8) == 106u8) && ((((170u8 << 1u8) | (181u8 >> 7u8)) as u8) == 85u8)) && (((((176u8 << 1u8) | (170u8 >> 7u8)) as u8) == 97u8) && ((((176u8 >> 7u8) & 1u8) == 1u8) && ((234u8 ^ 0x87u8) == 109u8))))))
}

#[verifier::opaque]
spec fn bytes_x_15() -> bool {
    (((((((109u8 << 1u8) as u8) == 218u8) && ((((225u8 << 1u8) | (109u8 >> 7u8)) as u8) == 194u8)) && (((((131u8 << 1u8) | (225u8 >> 7u8)) as u8) == 7u8) && ((((51u8 << 1u8) | (131u8 >> 7u8)) as u8) == 103u8))) && ((((((88u8 << 1u8) | (51u8 >> 7u8)) as u8) == 176u8) && ((((21u8 << 1u8) | (88u8 >> 7u8)) as u8) == 42u8)) && (((((43u8 << 1u8) | (21u8 >> 7u8)) as u8) == 86u8) && ((((250u8 << 1u8) | (43u8 >> 7u8)) as u8) == 244u8)))) && (((((((79u8 << 1u8) | (250u8 >> 7u8)) as u8) == 159u8) && ((((40u8 << 1u8) | (79u8 >> 7u8)) as u8) == 80u8)) && (((((135u8 << 1u8) | (40u8 >> 7u8)) as u8) == 14u8) && ((((230u8 << 1u8) | (135u8 >> 7u8)) as u8) == 205u8))) && ((((((101u8 << 1u8) | (230u8 >> 7u8)) as u8) == 203u8) && ((((106u8 << 1u8) | (101u8 >> 7u8)) as u8) == 212u8)) && (((((85u8 << 1u8) | (106u8 >> 7u8)) as u8) == 170u8) && (((((97u8 << 1u8) | (85u8 >> 7u8)) as u8) == 194u8) && (((97u8 >> 7u8) & 1u8) == 0u8))))))
}

#[verifier::opaque]
spec fn bytes_x_16() -> bool {
    (((((((218u8 << 1u8) as u8) == 180u8) && ((((194u8 << 1u8) | (218u8 >> 7u8)) as u8) == 133u8)) && (((((7u8 << 1u8) | (194u8 >> 7u8)) as u8) == 15u8) && ((((103u8 << 1u8) | (7u8 >> 7u8)) as u8) == 206u8))) && ((((((176u8 << 1u8) | (103u8 >> 7u8)) as u8) == 96u8) && ((((42u8 << 1u8) | (176u8 >> 7u8)) as u8) == 85u8)) && (((((86u8 << 1u8) | (42u8 >> 7u8)) as u8) == 172u8) && (((((244u8 << 1u8) | (86u8 >> 7u8)) as u8) == 232u8) && ((((159u8 << 1u8) | (244u8 >> 7u8)) as u8) == 63u8))))) && (((((((80u8 << 1u8) | (159u8 >> 7u8)) as u8) == 161u8) && ((((14u8 << 1u8) | (80u8 >> 7u8)) as u8) == 28u8)) && (((((205u8 << 1u8) | (14u8 >> 7u8)) as u8) == 154u8) && ((((203u8 << 1u8) | (205u8 >> 7u8)) as u8) == 151u8))) && ((((((212u8 << 1u8) | (203u8 >> 7u8)) as u8) == 169u8) && ((((170u8 << 1u8) | (212u8 >> 7u8)) as u8) == 85u8)) && (((((194u8 << 1u8) | (170u8 >> 7u8)) as u8) == 133u8) && ((((194u8 >> 7u8) & 1u8) == 1u8) && ((180u8 ^ 0x87u8) == 51u8))))))
}

#[verifier::opaque]
spec fn bytes_x_17() -> bool {
    (((((((51u8 << 1u8) as u8) == 102u8) && ((((133u8 << 1u8) | (51u8 >> 7u8)) as u8) == 10u8)) && (((((15u8 << 1u8) | (133u8 >> 7u8)) as u8) == 31u8) && ((((206u8 << 1u8) | (15u8 >> 7u8)) as u8) == 156u8))) && ((((((96u8 << 1u8) | (206u8 >> 7u8)) as u8) == 193u8) && ((((85u8 << 1u8) | (96u8 >> 7u8)) as u8) == 170u8)) && (((((172u8 << 1u8) | (85u8 >> 7u8)) as u8) == 88u8) && (((((232u8 << 1u8) | (172u8 >> 7u8)) as u8) == 209u8) && ((((63u8 << 1u8) | (232u8 >> 7u8)) as u8) == 127u8))))) && (((((((161u8 << 1u8) | (63u8 >> 7u8)) as u8) == 66u8) && ((((28u8 << 1u8) | (161u8 >> 7u8)) as u8) == 57u8)) && (((((154u8 << 1u8) | (28u8 >> 7u8)) as u8) == 52u8) && ((((151u8 << 1u8) | (154u8 >> 7u8)) as u8) == 47u8))) && ((((((169u8 << 1u8) | (151u8 >> 7u8)) as u8) == 83u8) && ((((85u8 << 1u8) | (169u8 >> 7u8)) as u8) == 171u8)) && (((((133u8 << 1u8) | (85u8 >> 7u8)) as u8) == 10u8) && ((((133u8 >> 7u8) & 1u8) == 1u8) && ((102u8 ^ 0x87u8) == 225u8))))))
}

#[verifier::opaque]
spec fn bytes_x_18() -> bool {
    (((((((225u8 << 1u8) as u8) == 194u8) && ((((10u8 << 1u8) | (225u8 >> 7u8)) as u8) == 21u8)) && (((((31u8 << 1u8) | (10u8 >> 7u8)) as u8) == 62u8) && ((((156u8 << 1u8) | (31u8 >> 7u8)) as u8) == 56u8))) && ((((((193u8 << 1u8) | (156u8 >> 7u8)) as u8) == 131u8) && ((((170u8 << 1u8) | (193u8 >> 7u8)) as u8) == 85u8)) && (((((88u8 << 1u8) | (170u8 >> 7u8)) as u8) == 177u8) && ((((209u8 << 1u8) | (88u8 >> 7u8)) as u8) == 162u8)))) && (((((((127u8 << 1u8) | (209u8 >> 7u8)) as u8) == 255u8) && ((((66u8 << 1u8) | (127u8 >> 7u8)) as u8) == 132u8)) && (((((57u8 << 1u8) | (66u8 >> 7u8)) as u8) == 114u8) && ((((52u8 << 1u8) | (57u8 >> 7u8)) as u8) == 104u8))) && ((((((47u8 << 1u8) | (52u8 >> 7u8)) as u8) == 94u8) && ((((83u8 << 1u8) | (47u8 >> 7u8)) as u8) == 166u8)) && (((((171u8 << 1u8) | (83u8 >> 7u8)) as u8) == 86u8) && (((((10u8 << 1u8) | (171u8 >> 7u8)) as u8) == 21u8) && (((10u8 >> 7u8) & 1u8) == 0u8))))))
}

#[verifier::opaque]
spec fn bytes_x_19() -> bool {
    (((((((194u8 << 1u8) as u8) == 132u8) && ((((21u8 << 1u8) | (194u8 >> 7u8)) as u8) == 43u8)) && (((((62u8 << 1u8) | (21u8 >> 7u8)) as u8) == 124u8) && ((((56u8 << 1u8) | (62u8 >> 7u8)) as u8) == 112u8))) && ((((((131u8 << 1u8) | (56u8 >> 7u8)) as u8) == 6u8) && ((((85u8 << 1u8) | (131u8 >> 7u8)) as u8) == 171u8)) && (((((177u8 << 1u8) | (85u8 >> 7u8)) as u8) == 98u8) && ((((162u8 << 1u8) | (177u8 >> 7u8)) as u8) == 69u8)))) && (((((((255u8 << 1u8) | (162u8 >> 7u8)) as u8) == 255u8) && ((((132u8 << 1u8) | (255u8 >> 7u8)) as u8) == 9u8)) && (((((114u8 << 1u8) | (132u8 >> 7u8)) as u8) == 229u8) && ((((104u8 << 1u8) | (114u8 >> 7u8)) as u8) == 208u8))) && ((((((94u8 << 1u8) | (104u8 >> 7u8)) as u8) == 188u8) && ((((166u8 << 1u8) | (94u8 >> 7u8)) as u8) == 76u8)) && (((((86u8 << 1u8) | (166u8 >> 7u8)) as u8) == 173u8) && (((((21u8 << 1u8) | (86u8 >> 7u8)) as u8) == 42u8) && (((21u8 >> 7u8) & 1u8) == 0u8))))))
}

#[verifier::opaque]
spec fn bytes_x_20() -> bool {
    (((((((132u8 << 1u8) as u8) == 8u8) && ((((43u8 << 1u8) | (132u8 >> 7u8)) as u8) == 87u8)) && (((((124u8 << 1u8) | (43u8 >> 7u8)) as u8) == 248u8) && ((((112u8 << 1u8) | (124u8 >> 7u8)) as u8) == 224u8))) && ((((((6u8 << 1u8) | (112u8 >> 7u8)) as u8) == 12u8) && ((((171u8 << 1u8) | (6u8 >> 7u8)) as u8) == 86u8)) && (((((98u8 << 1u8) | (171u8 >> 7u8)) as u8) == 197u8) && ((((69u8 << 1u8) | (98u8 >> 7u8)) as u8) == 138u8)))) && (((((((255u8 << 1u8) | (69u8 >> 7u8)) as u8) == 254u8) && ((((9u8 << 1u8) | (255u8 >> 7u8)) as u8) == 19u8)) && (((((229u8 << 1u8) | (9u8 >> 7u8)) as u8) == 202u8) && ((((208u8 << 1u8) | (229u8 >> 7u8)) as u8) == 161u8))) && ((((((188u8 << 1u8) | (208u8 >> 7u8)) as u8) == 121u8) && ((((76u8 << 1u8) | (188u8 >> 7u8)) as u8) == 153u8)) && (((((173u8 << 1u8) | (76u8 >> 7u8)) as u8) == 90u8) && (((((42u8 << 1u8) | (173u8 >> 7u8)) as u8) == 85u8) && (((42u8 >> 7u8) & 1u8) == 0u8))))))
}

#[verifier::opaque]
spec fn bytes_x_21() -> bool {
    (((((((8u8 << 1u8) as u8) == 16u8) && ((((87u8 << 1u8) | (8u8 >> 7u8)) as u8) == 174u8)) && (((((248u8 << 1u8) | (87u8 >> 7u8)) as u8) == 240u8) && ((((224u8 << 1u8) | (248u8 >> 7u8)) as u8) == 193u8))) && ((((((12u8 << 1u8) | (224u8 >> 7u8)) as u8) == 25u8) && ((((86u8 << 1u8) | (12u8 >> 7u8)) as u8) == 172u8)) && (((((197u8 << 1u8) | (86u8 >> 7u8)) as u8) == 138u8) && ((((138u8 << 1u8) | (197u8 >> 7u8)) as u8) == 21u8)))) && (((((((254u8 << 1u8) | (138u8 >> 7u8)) as u8) == 253u8) && ((((19u8 << 1u8) | (254u8 >> 7u8)) as u8) == 39u8)) && (((((202u8 << 1u8) | (19u8 >> 7u8)) as u8) == 148u8) && ((((161u8 << 1u8) | (202u8 >> 7u8)) as u8) == 67u8))) && ((((((121u8 << 1u8) | (161u8 >> 7u8)) as u8) == 243u8) && ((((153u8 << 1u8) | (121u8 >> 7u8)) as u8) == 50u8)) && (((((90u8 << 1u8) | (153u8 >> 7u8)) as u8) == 181u8) && (((((85u8 << 1u8) | (90u8 >> 7u8)) as u8) == 170u8) && (((85u8 >> 7u8) & 1u8) == 0u8))))))
}

#[verifier::opaque]
spec fn bytes_x_22() -> bool {
    (((((((16u8 << 1u8) as u8) == 32u8) && ((((174u8 << 1u8) | (16u8 >> 7u8)) as u8) == 92u8)) && (((((240u8 << 1u8) | (174u8 >> 7u8)) as u8) == 225u8) && ((((193u8 << 1u8) | (240u8 >> 7u8)) as u8) == 131u8))) && ((((((25u8 << 1u8) | (193u8 >> 7u8)) as u8) == 51u8) && ((((172u8 << 1u8) | (25u8 >> 7u8)) as u8) == 88u8)) && (((((138u8 << 1u8) | (172u8 >> 7u8)) as u8) == 21u8) && (((((21u8 << 1u8) | (138u8 >> 7u8)) as u8) == 43u8) && ((((253u8 << 1u8) | (21u8 >> 7u8)) as u8) == 250u8))))) && (((((((39u8 << 1u8) | (253u8 >> 7u8)) as u8) == 79u8) && ((((148u8 << 1u8) | (39u8 >> 7u8)) as u8) == 40u8)) && (((((67u8 << 1u8) | (148u8 >> 7u8)) as u8) == 135u8) && ((((243u8 << 1u8) | (67u8 >> 7u8)) as u8) == 230u8))) && ((((((50u8 << 1u8) | (243u8 >> 7u8)) as u8) == 101u8) && ((((181u8 << 1u8) | (50u8 >> 7u8)) as u8) == 106u8)) && (((((170u8 << 1u8) | (181u8 >> 7u8)) as u8) == 85u8) && ((((170u8 >> 7u8) & 1u8) == 1u8) && ((32u8 ^ 0x87u8) == 167u8))))))
}

#[verifier::opaque]
spec fn bytes_x_23() -> bool {
    (((((((167u8 << 1u8) as u8) == 78u8) && ((((92u8 << 1u8) | (167u8 >> 7u8)) as u8) == 185u8)) && (((((225u8 << 1u8) | (92u8 >> 7u8)) as u8) == 194u8) && ((((131u8 << 1u8) | (225u8 >> 7u8)) as u8) == 7u8))) && ((((((51u8 << 1u8) | (131u8 >> 7u8)) as u8) == 103u8) && ((((88u8 << 1u8) | (51u8 >> 7u8)) as u8) == 176u8)) && (((((21u8 << 1u8) | (88u8 >> 7u8)) as u8) == 42u8) && ((((43u8 << 1u8) | (21u8 >> 7u8)) as u8) == 86u8)))) && (((((((250u8 << 1u8) | (43u8 >> 7u8)) as u8) == 244u8) && ((((79u8 << 1u8) | (250u8 >> 7u8)) as u8) == 159u8)) && (((((40u8 << 1u8) | (79u8 >> 7u8)) as u8) == 80u8) && ((((135u8 << 1u8) | (40u8 >> 7u8)) as u8) == 14u8))) && ((((((230u8 << 1u8) | (135u8 >> 7u8)) as u8) == 205u8) && ((((101u8 << 1u8) | (230u8 >> 7u8)) as u8) == 203u8)) && (((((106u8 << 1u8) | (101u8 >> 7u8)) as u8) == 212u8) && (((((85u8 << 1u8) | (106u8 >> 7u8)) as u8) == 170u8) && (((85u8 >> 7u8) & 1u8) == 0u8))))))
}

#[verifier::opaque]
spec fn bytes_x_24() -> bool {
    (((((((78u8 << 1u8) as u8) == 156u8) && ((((185u8 << 1u8) | (78u8 >> 7u8)) as u8) == 114u8)) && (((((194u8 << 1u8) | (185u8 >> 7u8)) as u8) == 133u8) && ((((7u8 << 1u8) | (194u8 >> 7u8)) as u8) == 15u8))) && ((((((103u8 << 1u8) | (7u8 >> 7u8)) as u8) == 206u8) && ((((176u8 << 1u8) | (103u8 >> 7u8)) as u8) == 96u8)) && (((((42u8 << 1u8) | (176u8 >> 7u8)) as u8) == 85u8) && (((((86u8 << 1u8) | (42u8 >> 7u8)) as u8) == 172u8) && ((((244u8 << 1u8) | (86u8 >> 7u8)) as u8) == 232u8))))) && (((((((159u8 << 1u8) | (244u8 >> 7u8)) as u8) == 63u8) && ((((80u8 << 1u8) | (159u8 >> 7u8)) as u8) == 161u8)) && (((((14u8 << 1u8) | (80u8 >> 7u8)) as u8) == 28u8) && ((((205u8 << 1u8) | (14u8 >> 7u8)) as u8) == 154u8))) && ((((((203u8 << 1u8) | (205u8 >> 7u8)) as u8) == 151u8) && ((((212u8 << 1u8) | (203u8 >> 7u8)) as u8) == 169u8)) && (((((170u8 << 1u8) | (212u8 >> 7u8)) as u8) == 85u8) && ((((170u8 >> 7u8) & 1u8) == 1u8) && ((156u8 ^ 0x87u8) == 27u8))))))
}

#[verifier::opaque]
spec fn bytes_x_25() -> bool {
    (((((((27u8 << 1u8) as u8) == 54u8) && ((((114u8 << 1u8) | (27u8 >> 7u8)) as u8) == 228u8)) && (((((133u8 << 1u8) | (114u8 >> 7u8)) as u8) == 10u8) && ((((15u8 << 1u8) | (133u8 >> 7u8)) as u8) == 31u8))) && ((((((206u8 << 1u8) | (15u8 >> 7u8)) as u8) == 156u8) && ((((96u8 << 1u8) | (206u8 >> 7u8)) as u8) == 193u8)) && (((((85u8 << 1u8) | (96u8 >> 7u8)) as u8) == 170u8) && ((((172u8 << 1u8) | (85u8 >> 7u8)) as u8) == 88u8)))) && (((((((232u8 << 1u8) | (172u8 >> 7u8)) as u8) == 209u8) && ((((63u8 << 1u8) | (232u8 >> 7u8)) as u8) == 127u8)) && (((((161u8 << 1u8) | (63u8 >> 7u8)) as u8) == 66u8) && ((((28u8 << 1u8) | (161u8 >> 7u8)) as u8) == 57u8))) && ((((((154u8 << 1u8) | (28u8 >> 7u8)) as u8) == 52u8) && ((((151u8 << 1u8) | (154u8 >> 7u8)) as u8) == 47u8)) && (((((169u8 << 1u8) | (151u8 >> 7u8)) as u8) == 83u8) && (((((85u8 << 1u8) | (169u8 >> 7u8)) as u8) == 171u8) && (((85u8 >> 7u8) & 1u8) == 0u8))))))
}

#[verifier::opaque]
spec fn bytes_x_26() -> bool {
    (((((((54u8 << 1u8) as u8) == 108u8) && ((((228u8 << 1u8) | (54u8 >> 7u8)) as u8) == 200u8)) && (((((10u8 << 1u8) | (228u8 >> 7u8)) as u8) == 21u8) && ((((31u8 << 1u8) | (10u8 >> 7u8)) as u8) == 62u8))) && ((((((156u8 << 1u8) | (31u8 >> 7u8)) as u8) == 56u8) && ((((193u8 << 1u8) | (156u8 >> 7u8)) as u8) == 131u8)) && (((((170u8 << 1u8) | (193u8 >> 7u8)) as u8) == 85u8) && (((((88u8 << 1u8) | (170u8 >> 7u8)) as u8) == 177u8) && ((((209u8 << 1u8) | (88u8 >> 7u8)) as u8) == 162u8))))) && (((((((127u8 << 1u8) | (209u8 >> 7u8)) as u8) == 255u8) && ((((66u8 << 1u8) | (127u8 >> 7u8)) as u8) == 132u8)) && (((((57u8 << 1u8) | (66u8 >> 7u8)) as u8) == 114u8) && ((((52u8 << 1u8) | (57u8 >> 7u8)) as u8) == 104u8))) && ((((((47u8 << 1u8) | (52u8 >> 7u8)) as u8) == 94u8) && ((((83u8 << 1u8) | (47u8 >> 7u8)) as u8) == 166u8)) && (((((171u8 << 1u8) | (83u8 >> 7u8)) as u8) == 86u8) && ((((171u8 >> 7u8) & 1u8) == 1u8) && ((108u8 ^ 0x87u8) == 235u8))))))
}

#[verifier::opaque]
spec fn bytes_x_27() -> bool {
    (((((((235u8 << 1u8) as u8) == 214u8) && ((((200u8 << 1u8) | (235u8 >> 7u8)) as u8) == 145u8)) && (((((21u8 << 1u8) | (200u8 >> 7u8)) as u8) == 43u8) && ((((62u8 << 1u8) | (21u8 >> 7u8)) as u8) == 124u8))) && ((((((56u8 << 1u8) | (62u8 >> 7u8)) as u8) == 112u8) && ((((131u8 << 1u8) | (56u8 >> 7u8)) as u8) == 6u8)) && (((((85u8 << 1u8) | (131u8 >> 7u8)) as u8) == 171u8) && ((((177u8 << 1u8) | (85u8 >> 7u8)) as u8) == 98u8)))) && (((((((162u8 << 1u8) | (177u8 >> 7u8)) as u8) == 69u8) && ((((255u8 << 1u8) | (162u8 >> 7u8)) as u8) == 255u8)) && (((((132u8 << 1u8) | (255u8 >> 7u8)) as u8) == 9u8) && ((((114u8 << 1u8) | (132u8 >> 7u8)) as u8) == 229u8))) && ((((((104u8 << 1u8) | (114u8 >> 7u8)) as u8) == 208u8) && ((((94u8 << 1u8) | (104u8 >> 7u8)) as u8) == 188u8)) && (((((166u8 << 1u8) | (94u8 >> 7u8)) as u8) == 76u8) && (((((86u8 << 1u8) | (166u8 >> 7u8)) as u8) == 173u8) && (((86u8 >> 7u8) & 1u8) == 0u8))))))
}

#[verifier::opaque]
spec fn bytes_x_28() -> bool {
    (((((((214u8 << 1u8) as u8) == 172u8) && ((((145u8 << 1u8) | (214u8 >> 7u8)) as u8) == 35u8)) && (((((43u8 << 1u8) | (145u8 >> 7u8)) as u8) == 87u8) && ((((124u8 << 1u8) | (43u8 >> 7u8)) as u8) == 248u8))) && ((((((112u8 << 1u8) | (124u8 >> 7u8)) as u8) == 224u8) && ((((6u8 << 1u8) | (112u8 >> 7u8)) as u8) == 12u8)) && (((((171u8 << 1u8) | (6u8 >> 7u8)) as u8) == 86u8) && (((((98u8 << 1u8) | (171u8 >> 7u8)) as u8) == 197u8) && ((((69u8 << 1u8) | (98u8 >> 7u8)) as u8) == 138u8))))) && (((((((255u8 << 1u8) | (69u8 >> 7u8)) as u8) == 254u8) && ((((9u8 << 1u8) | (255u8 >> 7u8)) as u8) == 19u8)) && (((((229u8 << 1u8) | (9u8 >> 7u8)) as u8) == 202u8) && ((((208u8 << 1u8) | (229u8 >> 7u8)) as u8) == 161u8))) && ((((((188u8 << 1u8) | (208u8 >> 7u8)) as u8) == 121u8) && ((((76u8 << 1u8) | (188u8 >> 7u8)) as u8) == 153u8)) && (((((173u8 << 1u8) | (76u8 >> 7u8)) as u8) == 90u8) && ((((173u8 >> 7u8) & 1u8) == 1u8) && ((172u8 ^ 0x87u8) == 43u8))))))
}

#[verifier::opaque]
spec fn bytes_x_29() -> bool {
    (((((((43u8 << 1u8) as u8) == 86u8) && ((((35u8 << 1u8) | (43u8 >> 7u8)) as u8) == 70u8)) && (((((87u8 << 1u8) | (35u8 >> 7u8)) as u8) == 174u8) && ((((248u8 << 1u8) | (87u8 >> 7u8)) as u8) == 240u8))) && ((((((224u8 << 1u8) | (248u8 >> 7u8)) as u8) == 193u8) && ((((12u8 << 1u8) | (224u8 >> 7u8)) as u8) == 25u8)) && (((((86u8 << 1u8) | (12u8 >> 7u8)) as u8) == 172u8) && ((((197u8 << 1u8) | (86u8 >> 7u8)) as u8) == 138u8)))) && (((((((138u8 << 1u8) | (197u8 >> 7u8)) as u8) == 21u8) && ((((254u8 << 1u8) | (138u8 >> 7u8)) as u8) == 253u8)) && (((((19u8 << 1u8) | (254u8 >> 7u8)) as u8) == 39u8) && ((((202u8 << 1u8) | (19u8 >> 7u8)) as u8) == 148u8))) && ((((((161u8 << 1u8) | (202u8 >> 7u8)) as u8) == 67u8) && ((((121u8 << 1u8) | (161u8 >> 7u8)) as u8) == 243u8)) && (((((153u8 << 1u8) | (121u8 >> 7u8)) as u8) == 50u8) && (((((90u8 << 1u8) | (153u8 >> 7u8)) as u8) == 181u8) && (((90u8 >> 7u8) & 1u8) == 0u8))))))
}

#[verifier::opaque]
spec fn bytes_x_30() -> bool {
    (((((((86u8 << 1u8) as u8) == 172u8) && ((((70u8 << 1u8) | (86u8 >> 7u8)) as u8) == 140u8)) && (((((174u8 << 1u8) | (70u8 >> 7u8)) as u8) == 92u8) && ((((240u8 << 1u8) | (174u8 >> 7u8)) as u8) == 225u8))) && ((((((193u8 << 1u8) | (240u8 >> 7u8)) as u8) == 131u8) && ((((25u8 << 1u8) | (193u8 >> 7u8)) as u8) == 51u8)) && (((((172u8 << 1u8) | (25u8 >> 7u8)) as u8) == 88u8) && (((((138u8 << 1u8) | (172u8 >> 7u8)) as u8) == 21u8) && ((((21u8 << 1u8) | (138u8 >> 7u8)) as u8) == 43u8))))) && (((((((253u8 << 1u8) | (21u8 >> 7u8)) as u8) == 250u8) && ((((39u8 << 1u8) | (253u8 >> 7u8)) as u8) == 79u8)) && (((((148u8 << 1u8) | (39u8 >> 7u8)) as u8) == 40u8) && ((((67u8 << 1u8) | (148u8 >> 7u8)) as u8) == 135u8))) && ((((((243u8 << 1u8) | (67u8 >> 7u8)) as u8) == 230u8) && ((((50u8 << 1u8) | (243u8 >> 7u8)) as u8) == 101u8)) && (((((181u8 << 1u8) | (50u8 >> 7u8)) as u8) == 106u8) && ((((181u8 >> 7u8) & 1u8) == 1u8) && ((172u8 ^ 0x87u8) == 43u8))))))
}

#[verifier::opaque]
spec fn bytes_x_31() -> bool {
    (((((((43u8 << 1u8) as u8) == 86u8) && ((((140u8 << 1u8) | (43u8 >> 7u8)) as u8) == 24u8)) && (((((92u8 << 1u8) | (140u8 >> 7u8)) as u8) == 185u8) && ((((225u8 << 1u8) | (92u8 >> 7u8)) as u8) == 194u8))) && ((((((131u8 << 1u8) | (225u8 >> 7u8)) as u8) == 7u8) && ((((51u8 << 1u8) | (131u8 >> 7u8)) as u8) == 103u8)) && (((((88u8 << 1u8) | (51u8 >> 7u8)) as u8) == 176u8) && ((((21u8 << 1u8) | (88u8 >> 7u8)) as u8) == 42u8)))) && (((((((43u8 << 1u8) | (21u8 >> 7u8)) as u8) == 86u8) && ((((250u8 << 1u8) | (43u8 >> 7u8)) as u8) == 244u8)) && (((((79u8 << 1u8) | (250u8 >> 7u8)) as u8) == 159u8) && ((((40u8 << 1u8) | (79u8 >> 7u8)) as u8) == 80u8))) && ((((((135u8 << 1u8) | (40u8 >> 7u8)) as u8) == 14u8) && ((((230u8 << 1u8) | (135u8 >> 7u8)) as u8) == 205u8)) && (((((101u8 << 1u8) | (230u8 >> 7u8)) as u8) == 203u8) && (((((106u8 << 1u8) | (101u8 >> 7u8)) as u8) == 212u8) && (((106u8 >> 7u8) & 1u8) == 0u8))))))
}

#[verifier::opaque]
spec fn bytes_x_32() -> bool {
    (((((((86u8 << 1u8) as u8) == 172u8) && ((((24u8 << 1u8) | (86u8 >> 7u8)) as u8) == 48u8)) && (((((185u8 << 1u8) | (24u8 >> 7u8)) as u8) == 114u8) && ((((194u8 << 1u8) | (185u8 >> 7u8)) as u8) == 133u8))) && ((((((7u8 << 1u8) | (194u8 >> 7u8)) as u8) == 15u8) && ((((103u8 << 1u8) | (7u8 >> 7u8)) as u8) == 206u8)) && (((((176u8 << 1u8) | (103u8 >> 7u8)) as u8) == 96u8) && (((((42u8 << 1u8) | (176u8 >> 7u8)) as u8) == 85u8) && ((((86u8 << 1u8) | (42u8 >> 7u8)) as u8) == 172u8))))) && (((((((244u8 << 1u8) | (86u8 >> 7u8)) as u8) == 232u8) && ((((159u8 << 1u8) | (244u8 >> 7u8)) as u8) == 63u8)) && (((((80u8 << 1u8) | (159u8 >> 7u8)) as u8) == 161u8) && ((((14u8 << 1u8) | (80u8 >> 7u8)) as u8) == 28u8))) && ((((((205u8 << 1u8) | (14u8 >> 7u8)) as u8) == 154u8) && ((((203u8 << 1u8) | (205u8 >> 7u8)) as u8) == 151u8)) && (((((212u8 << 1u8) | (203u8 >> 7u8)) as u8) == 169u8) && ((((212u8 >> 7u8) & 1u8) == 1u8) && ((172u8 ^ 0x87u8) == 43u8))))))
}

#[verifier::opaque]
spec fn bytes_x_33() -> bool {
    (((((((43u8 << 1u8) as u8) == 86u8) && ((((48u8 << 1u8) | (43u8 >> 7u8)) as u8) == 96u8)) && (((((114u8 << 1u8) | (48u8 >> 7u8)) as u8) == 228u8) && ((((133u8 << 1u8) | (114u8 >> 7u8)) as u8) == 10u8))) && ((((((15u8 << 1u8) | (133u8 >> 7u8)) as u8) == 31u8) && ((((206u8 << 1u8) | (15u8 >> 7u8)) as u8) == 156u8)) && (((((96u8 << 1u8) | (206u8 >> 7u8)) as u8) == 193u8) && (((((85u8 << 1u8) | (96u8 >> 7u8)) as u8) == 170u8) && ((((172u8 << 1u8) | (85u8 >> 7u8)) as u8) == 88u8))))) && (((((((232u8 << 1u8) | (172u8 >> 7u8)) as u8) == 209u8) && ((((63u8 << 1u8) | (232u8 >> 7u8)) as u8) == 127u8)) && (((((161u8 << 1u8) | (63u8 >> 7u8)) as u8) == 66u8) && ((((28u8 << 1u8) | (161u8 >> 7u8)) as u8) == 57u8))) && ((((((154u8 << 1u8) | (28u8 >> 7u8)) as u8) == 52u8) && ((((151u8 << 1u8) | (154u8 >> 7u8)) as u8) == 47u8)) && (((((169u8 << 1u8) | (151u8 >> 7u8)) as u8) == 83u8) && ((((169u8 >> 7u8) & 1u8) == 1u8) && ((86u8 ^ 0x87u8) == 209u8))))))
}

#[verifier::opaque]
spec fn bytes_x_34() -> bool {
    (((((((209u8 << 1u8) as u8) == 162u8) && ((((96u8 << 1u8) | (209u8 >> 7u8)) as u8) == 193u8)) && (((((228u8 << 1u8) | (96u8 >> 7u8)) as u8) == 200u8) && ((((10u8 << 1u8) | (228u8 >> 7u8)) as u8) == 21u8))) && ((((((31u8 << 1u8) | (10u8 >> 7u8)) as u8) == 62u8) && ((((156u8 << 1u8) | (31u8 >> 7u8)) as u8) == 56u8)) && (((((193u8 << 1u8) | (156u8 >> 7u8)) as u8) == 131u8) && ((((170u8 << 1u8) | (193u8 >> 7u8)) as u8) == 85u8)))) && (((((((88u8 << 1u8) | (170u8 >> 7u8)) as u8) == 177u8) && ((((209u8 << 1u8) | (88u8 >> 7u8)) as u8) == 162u8)) && (((((127u8 << 1u8) | (209u8 >> 7u8)) as u8) == 255u8) && ((((66u8 << 1u8) | (127u8 >> 7u8)) as u8) == 132u8))) && ((((((57u8 << 1u8) | (66u8 >> 7u8)) as u8) == 114u8) && ((((52u8 << 1u8) | (57u8 >> 7u8)) as u8) == 104u8)) && (((((47u8 << 1u8) | (52u8 >> 7u8)) as u8) == 94u8) && (((((83u8 << 1u8) | (47u8 >> 7u8)) as u8) == 166u8) && (((83u8 >> 7u8) & 1u8) == 0u8))))))
}

#[verifier::opaque]
spec fn bytes_x_35() -> bool {
    (((((((162u8 << 1u8) as u8) == 68u8) && ((((193u8 << 1u8) | (162u8 >> 7u8)) as u8) == 131u8)) && (((((200u8 << 1u8) | (193u8 >> 7u8)) as u8) == 145u8) && ((((21u8 << 1u8) | (200u8 >> 7u8)) as u8) == 43u8))) && ((((((62u8 << 1u8) | (21u8 >> 7u8)) as u8) == 124u8) && ((((56u8 << 1u8) | (62u8 >> 7u8)) as u8) == 112u8)) && (((((131u8 << 1u8) | (56u8 >> 7u8)) as u8) == 6u8) && (((((85u8 << 1u8) | (131u8 >> 7u8)) as u8) == 171u8) && ((((177u8 << 1u8) | (85u8 >> 7u8)) as u8) == 98u8))))) && (((((((162u8 << 1u8) | (177u8 >> 7u8)) as u8) == 69u8) && ((((255u8 << 1u8) | (162u8 >> 7u8)) as u8) == 255u8)) && (((((132u8 << 1u8) | (255u8 >> 7u8)) as u8) == 9u8) && ((((114u8 << 1u8) | (132u8 >> 7u8)) as u8) == 229u8))) && ((((((104u8 << 1u8) | (114u8 >> 7u8)) as u8) == 208u8) && ((((94u8 << 1u8) | (104u8 >> 7u8)) as u8) == 188u8)) && (((((166u8 << 1u8) | (94u8 >> 7u8)) as u8) == 76u8) && ((((166u8 >> 7u8) & 1u8) == 1u8) && ((68u8 ^ 0x87u8) == 195u8))))))
}

#[verifier::opaque]
spec fn bytes_x_36() -> bool {
    (((((((195u8 << 1u8) as u8) == 134u8) && ((((131u8 << 1u8) | (195u8 >> 7u8)) as u8) == 7u8)) && (((((145u8 << 1u8) | (131u8 >> 7u8)) as u8) == 35u8) && ((((43u8 << 1u8) | (145u8 >> 7u8)) as u8) == 87u8))) && ((((((124u8 << 1u8) | (43u8 >> 7u8)) as u8) == 248u8) && ((((112u8 << 1u8) | (124u8 >> 7u8)) as u8) == 224u8)) && (((((6u8 << 1u8) | (112u8 >> 7u8)) as u8) == 12u8) && ((((171u8 << 1u8) | (6u8 >> 7u8)) as u8) == 86u8)))) && (((((((98u8 << 1u8) | (171u8 >> 7u8)) as u8) == 197u8) && ((((69u8 << 1u8) | (98u8 >> 7u8)) as u8) == 138u8)) && (((((255u8 << 1u8) | (69u8 >> 7u8)) as u8) == 254u8) && ((((9u8 << 1u8) | (255u8 >> 7u8)) as u8) == 19u8))) && ((((((229u8 << 1u8) | (9u8 >> 7u8)) as u8) == 202u8) && ((((208u8 << 1u8) | (229u8 >> 7u8)) as u8) == 161u8)) && (((((188u8 << 1u8) | (208u8 >> 7u8)) as u8) == 121u8) && (((((76u8 << 1u8) | (188u8 >> 7u8)) as u8) == 153u8) && (((76u8 >> 7u8) & 1u8) == 0u8))))))
}

#[verifier::opaque]
spec fn bytes_x_37() -> bool {
    (((((((134u8 << 1u8) as u8) == 12u8) && ((((7u8 << 1u8) | (134u8 >> 7u8)) as u8) == 15u8)) && (((((35u8 << 1u8) | (7u8 >> 7u8)) as u8) == 70u8) && ((((87u8 << 1u8) | (35u8 >> 7u8)) as u8) == 174u8))) && ((((((248u8 << 1u8) | (87u8 >> 7u8)) as u8) == 240u8) && ((((224u8 << 1u8) | (248u8 >> 7u8)) as u8) == 193u8)) && (((((12u8 << 1u8) | (224u8 >> 7u8)) as u8) == 25u8) && (((((86u8 << 1u8) | (12u8 >> 7u8)) as u8) == 172u8) && ((((197u8 << 1u8) | (86u8 >> 7u8)) as u8) == 138u8))))) && (((((((138u8 << 1u8) | (197u8 >> 7u8)) as u8) == 21u8) && ((((254u8 << 1u8) | (138u8 >> 7u8)) as u8) == 253u8)) && (((((19u8 << 1u8) | (254u8 >> 7u8)) as u8) == 39u8) && ((((202u8 << 1u8) | (19u8 >> 7u8)) as u8) == 148u8))) && ((((((161u8 << 1u8) | (202u8 >> 7u8)) as u8) == 67u8) && ((((121u8 << 1u8) | (161u8 >> 7u8)) as u8) == 243u8)) && (((((153u8 << 1u8) | (121u8 >> 7u8)) as u8) == 50u8) && ((((153u8 >> 7u8) & 1u8) == 1u8) && ((12u8 ^ 0x87u8) == 139u8))))))
}

#[verifier::opaque]
spec fn bytes_x_38() -> bool {
    (((((((139u8 << 1u8) as u8) == 22u8) && ((((15u8 << 1u8) | (139u8 >> 7u8)) as u8) == 31u8)) && (((((70u8 << 1u8) | (15u8 >> 7u8)) as u8) == 140u8) && ((((174u8 << 1u8) | (70u8 >> 7u8)) as u8) == 92u8))) && ((((((240u8 << 1u8) | (174u8 >> 7u8)) as u8) == 225u8) && ((((193u8 << 1u8) | (240u8 >> 7u8)) as u8) == 131u8)) && (((((25u8 << 1u8) | (193u8 >> 7u8)) as u8) == 51u8) && ((((172u8 << 1u8) | (25u8 >> 7u8)) as u8) == 88u8)))) && (((((((138u8 << 1u8) | (172u8 >> 7u8)) as u8) == 21u8) && ((((21u8 << 1u8) | (138u8 >> 7u8)) as u8) == 43u8)) && (((((253u8 << 1u8) | (21u8 >> 7u8)) as u8) == 250u8) && ((((39u8 << 1u8) | (253u8 >> 7u8)) as u8) == 79u8))) && ((((((148u8 << 1u8) | (39u8 >> 7u8)) as u8) == 40u8) && ((((67u8 << 1u8) | (148u8 >> 7u8)) as u8) == 135u8)) && (((((243u8 << 1u8) | (67u8 >> 7u8)) as u8) == 230u8) && (((((50u8 << 1u8) | (243u8 >> 7u8)) as u8) == 101u8) && (((50u8 >> 7u8) & 1u8) == 0u8))))))
}

#[verifier::opaque]
spec fn bytes_x_39() -> bool {
    (((((((22u8 << 1u8) as u8) == 44u8) && ((((31u8 << 1u8) | (22u8 >> 7u8)) as u8) == 62u8)) && (((((140u8 << 1u8) | (31u8 >> 7u8)) as u8) == 24u8) && ((((92u8 << 1u8) | (140u8 >> 7u8)) as u8) == 185u8))) && ((((((225u8 << 1u8) | (92u8 >> 7u8)) as u8) == 194u8) && ((((131u8 << 1u8) | (225u8 >> 7u8)) as u8) == 7u8)) && (((((51u8 << 1u8) | (131u8 >> 7u8)) as u8) == 103u8) && ((((88u8 << 1u8) | (51u8 >> 7u8)) as u8) == 176u8)))) && (((((((21u8 << 1u8) | (88u8 >> 7u8)) as u8) == 42u8) && ((((43u8 << 1u8) | (21u8 >> 7u8)) as u8) == 86u8)) && (((((250u8 << 1u8) | (43u8 >> 7u8)) as u8) == 244u8) && ((((79u8 << 1u8) | (250u8 >> 7u8)) as u8) == 159u8))) && ((((((40u8 << 1u8) | (79u8 >> 7u8)) as u8) == 80u8) && ((((135u8 << 1u8) | (40u8 >> 7u8)) as u8) == 14u8)) && (((((230u8 << 1u8) | (135u8 >> 7u8)) as u8) == 205u8) && (((((101u8 << 1u8) | (230u8 >> 7u8)) as u8) == 203u8) && (((101u8 >> 7u8) & 1u8) == 0u8))))))
}

#[verifier::opaque]
spec fn bytes_x_40() -> bool {
    (((((((44u8 << 1u8) as u8) == 88u8) && ((((62u8 << 1u8) | (44u8 >> 7u8)) as u8) == 124u8)) && (((((24u8 << 1u8) | (62u8 >> 7u8)) as u8) == 48u8) && ((((185u8 << 1u8) | (24u8 >> 7u8)) as u8) == 114u8))) && ((((((194u8 << 1u8) | (185u8 >> 7u8)) as u8) == 133u8) && ((((7u8 << 1u8) | (194u8 >> 7u8)) as u8) == 15u8)) && (((((103u8 << 1u8) | (7u8 >> 7u8)) as u8) == 206u8) && (((((176u8 << 1u8) | (103u8 >> 7u8)) as u8) == 96u8) && ((((42u8 << 1u8) | (176u8 >> 7u8)) as u8) == 85u8))))) && (((((((86u8 << 1u8) | (42u8 >> 7u8)) as u8) == 172u8) && ((((244u8 << 1u8) | (86u8 >> 7u8)) as u8) == 232u8)) && (((((159u8 << 1u8) | (244u8 >> 7u8)) as u8) == 63u8) && ((((80u8 << 1u8) | (159u8 >> 7u8)) as u8) == 161u8))) && ((((((14u8 << 1u8) | (80u8 >> 7u8)) as u8) == 28u8) && ((((205u8 << 1u8) | (14u8 >> 7u8)) as u8) == 154u8)) && (((((203u8 << 1u8) | (205u8 >> 7u8)) as u8) == 151u8) && ((((203u8 >> 7u8) & 1u8) == 1u8) && ((88u8 ^ 0x87u8) == 223u8))))))
}

#[verifier::opaque]
spec fn bytes_x_41() -> bool {
    (((((((223u8 << 1u8) as u8) == 190u8) && ((((124u8 << 1u8) | (223u8 >> 7u8)) as u8) == 249u8)) && (((((48u8 << 1u8) | (124u8 >> 7u8)) as u8) == 96u8) && ((((114u8 << 1u8) | (48u8 >> 7u8)) as u8) == 228u8))) && ((((((133u8 << 1u8) | (114u8 >> 7u8)) as u8) == 10u8) && ((((15u8 << 1u8) | (133u8 >> 7u8)) as u8) == 31u8)) && (((((206u8 << 1u8) | (15u8 >> 7u8)) as u8) == 156u8) && (((((96u8 << 1u8) | (206u8 >> 7u8)) as u8) == 193u8) && ((((85u8 << 1u8) | (96u8 >> 7u8)) as u8) == 170u8))))) && (((((((172u8 << 1u8) | (85u8 >> 7u8)) as u8) == 88u8) && ((((232u8 << 1u8) | (172u8 >> 7u8)) as u8) == 209u8)) && (((((63u8 << 1u8) | (232u8 >> 7u8)) as u8) == 127u8) && ((((161u8 << 1u8) | (63u8 >> 7u8)) as u8) == 66u8))) && ((((((28u8 << 1u8) | (161u8 >> 7u8)) as u8) == 57u8) && ((((154u8 << 1u8) | (28u8 >> 7u8)) as u8) == 52u8)) && (((((151u8 << 1u8) | (154u8 >> 7u8)) as u8) == 47u8) && ((((151u8 >> 7u8) & 1u8) == 1u8) && ((190u8 ^ 0x87u8) == 57u8))))))
}

#[verifier::opaque]
spec fn bytes_x_42() -> bool {
    (((((((57u8 << 1u8) as u8) == 114u8) && ((((249u8 << 1u8) | (57u8 >> 7u8)) as u8) == 242u8)) && (((((96u8 << 1u8) | (249u8 >> 7u8)) as u8) == 193u8) && ((((228u8 << 1u8) | (96u8 >> 7u8)) as u8) == 200u8))) && ((((((10u8 << 1u8) | (228u8 >> 7u8)) as u8) == 21u8) && ((((31u8 << 1u8) | (10u8 >> 7u8)) as u8) == 62u8)) && (((((156u8 << 1u8) | (31u8 >> 7u8)) as u8) == 56u8) && ((((193u8 << 1u8) | (156u8 >> 7u8)) as u8) == 131u8)))) && (((((((170u8 << 1u8) | (193u8 >> 7u8)) as u8) == 85u8) && ((((88u8 << 1u8) | (170u8 >> 7u8)) as u8) == 177u8)) && (((((209u8 << 1u8) | (88u8 >> 7u8)) as u8) == 162u8) && ((((127u8 << 1u8) | (209u8 >> 7u8)) as u8) == 255u8))) && ((((((66u8 << 1u8) | (127u8 >> 7u8)) as u8) == 132u8) && ((((57u8 << 1u8) | (66u8 >> 7u8)) as u8) == 114u8)) && (((((52u8 << 1u8) | (57u8 >> 7u8)) as u8) == 104u8) && (((((47u8 << 1u8) | (52u8 >> 7u8)) as u8) == 94u8) && (((47u8 >> 7u8) & 1u8) == 0u8))))))
}

#[verifier::opaque]
spec fn bytes_x_43() -> bool {
    (((((((114u8 << 1u8) as u8) == 228u8) && ((((242u8 << 1u8) | (114u8 >> 7u8)) as u8) == 228u8)) && (((((193u8 << 1u8) | (242u8 >> 7u8)) as u8) == 131u8) && ((((200u8 << 1u8) | (193u8 >> 7u8)) as u8) == 145u8))) && ((((((21u8 << 1u8) | (200u8 >> 7u8)) as u8) == 43u8) && ((((62u8 << 1u8) | (21u8 >> 7u8)) as u8) == 124u8)) && (((((56u8 << 1u8) | (62u8 >> 7u8)) as u8) == 112u8) && ((((131u8 << 1u8) | (56u8 >> 7u8)) as u8) == 6u8)))) && (((((((85u8 << 1u8) | (131u8 >> 7u8)) as u8) == 171u8) && ((((177u8 << 1u8) | (85u8 >> 7u8)) as u8) == 98u8)) && (((((162u8 << 1u8) | (177u8 >> 7u8)) as u8) == 69u8) && ((((255u8 << 1u8) | (162u8 >> 7u8)) as u8) == 255u8))) && ((((((132u8 << 1u8) | (255u8 >> 7u8)) as u8) == 9u8) && ((((114u8 << 1u8) | (132u8 >> 7u8)) as u8) == 229u8)) && (((((104u8 << 1u8) | (114u8 >> 7u8)) as u8) == 208u8) && (((((94u8 << 1u8) | (104u8 >> 7u8)) as u8) == 188u8) && (((94u8 >> 7u8) & 1u8) == 0u8))))))
}

#[verifier::opaque]
spec fn bytes_x_44() -> bool {
    (((((((228u8 << 1u8) as u8) == 200u8) && ((((228u8 << 1u8) | (228u8 >> 7u8)) as u8) == 201u8)) && (((((131u8 << 1u8) | (228u8 >> 7u8)) as u8) == 7u8) && ((((145u8 << 1u8) | (131u8 >> 7u8)) as u8) == 35u8))) && ((((((43u8 << 1u8) | (145u8 >> 7u8)) as u8) == 87u8) && ((((124u8 << 1u8) | (43u8 >> 7u8)) as u8) == 248u8)) && (((((112u8 << 1u8) | (124u8 >> 7u8)) as u8) == 224u8) && (((((6u8 << 1u8) | (112u8 >> 7u8)) as u8) == 12u8) && ((((171u8 << 1u8) | (6u8 >> 7u8)) as u8) == 86u8))))) && (((((((98u8 << 1u8) | (171u8 >> 7u8)) as u8) == 197u8) && ((((69u8 << 1u8) | (98u8 >> 7u8)) as u8) == 138u8)) && (((((255u8 << 1u8) | (69u8 >> 7u8)) as u8) == 254u8) && ((((9u8 << 1u8) | (255u8 >> 7u8)) as u8) == 19u8))) && ((((((229u8 << 1u8) | (9u8 >> 7u8)) as u8) == 202u8) && ((((208u8 << 1u8) | (229u8 >> 7u8)) as u8) == 161u8)) && (((((188u8 << 1u8) | (208u8 >> 7u8)) as u8) == 121u8) && ((((188u8 >> 7u8) & 1u8) == 1u8) && ((200u8 ^ 0x87u8) == 79u8))))))
}

#[verifier::opaque]
spec fn bytes_x_45() -> bool {
    (((((((79u8 << 1u8) as u8) == 158u8) && ((((201u8 << 1u8) | (79u8 >> 7u8)) as u8) == 146u8)) && (((((7u8 << 1u8) | (201u8 >> 7u8)) as u8) == 15u8) && ((((35u8 << 1u8) | (7u8 >> 7u8)) as u8) == 70u8))) && ((((((87u8 << 1u8) | (35u8 >> 7u8)) as u8) == 174u8) && ((((248u8 << 1u8) | (87u8 >> 7u8)) as u8) == 240u8)) && (((((224u8 << 1u8) | (248u8 >> 7u8)) as u8) == 193u8) && ((((12u8 << 1u8) | (224u8 >> 7u8)) as u8) == 25u8)))) && (((((((86u8 << 1u8) | (12u8 >> 7u8)) as u8) == 172u8) && ((((197u8 << 1u8) | (86u8 >> 7u8)) as u8) == 138u8)) && (((((138u8 << 1u8) | (197u8 >> 7u8)) as u8) == 21u8) && ((((254u8 << 1u8) | (138u8 >> 7u8)) as u8) == 253u8))) && ((((((19u8 << 1u8) | (254u8 >> 7u8)) as u8) == 39u8) && ((((202u8 << 1u8) | (19u8 >> 7u8)) as u8) == 148u8)) && (((((161u8 << 1u8) | (202u8 >> 7u8)) as u8) == 67u8) && (((((121u8 << 1u8) | (161u8 >> 7u8)) as u8) == 243u8) && (((121u8 >> 7u8) & 1u8) == 0u8))))))
}

#[verifier::opaque]
spec fn bytes_x_46() -> bool {
    (((((((158u8 << 1u8) as u8) == 60u8) && ((((146u8 << 1u8) | (158u8 >> 7u8)) as u8) == 37u8)) && (((((15u8 << 1u8) | (146u8 >> 7u8)) as u8) == 31u8) && ((((70u8 << 1u8) | (15u8 >> 7u8)) as u8) == 140u8))) && ((((((174u8 << 1u8) | (70u8 >> 7u8)) as u8) == 92u8) && ((((240u8 << 1u8) | (174u8 >> 7u8)) as u8) == 225u8)) && (((((193u8 << 1u8) | (240u8 >> 7u8)) as u8) == 131u8) && (((((25u8 << 1u8) | (193u8 >> 7u8)) as u8) == 51u8) && ((((172u8 << 1u8) | (25u8 >> 7u8)) as u8) == 88u8))))) && (((((((138u8 << 1u8) | (172u8 >> 7u8)) as u8) == 21u8) && ((((21u8 << 1u8) | (138u8 >> 7u8)) as u8) == 43u8)) && (((((253u8 << 1u8) | (21u8 >> 7u8)) as u8) == 250u8) && ((((39u8 << 1u8) | (253u8 >> 7u8)) as u8) == 79u8))) && ((((((148u8 << 1u8) | (39u8 >> 7u8)) as u8) == 40u8) && ((((67u8 << 1u8) | (148u8 >> 7u8)) as u8) == 135u8)) && (((((243u8 << 1u8) | (67u8 >> 7u8)) as u8) == 230u8) && ((((243u8 >> 7u8) & 1u8) == 1u8) && ((60u8 ^ 0x87u8) == 187u8))))))
}

#[verifier::opaque]
spec fn bytes_x_47() -> bool {
    (((((((187u8 << 1u8) as u8) == 118u8) && ((((37u8 << 1u8) | (187u8 >> 7u8)) as u8) == 75u8)) && (((((31u8 << 1u8) | (37u8 >> 7u8)) as u8) == 62u8) && ((((140u8 << 1u8) | (31u8 >> 7u8)) as u8) == 24u8))) && ((((((92u8 << 1u8) | (140u8 >> 7u8)) as u8) == 185u8) && ((((225u8 << 1u8) | (92u8 >> 7u8)) as u8) == 194u8)) && (((((131u8 << 1u8) | (225u8 >> 7u8)) as u8) == 7u8) && (((((51u8 << 1u8) | (131u8 >> 7u8)) as u8) == 103u8) && ((((88u8 << 1u8) | (51u8 >> 7u8)) as u8) == 176u8))))) && (((((((21u8 << 1u8) | (88u8 >> 7u8)) as u8) == 42u8) && ((((43u8 << 1u8) | (21u8 >> 7u8)) as u8) == 86u8)) && (((((250u8 << 1u8) | (43u8 >> 7u8)) as u8) == 244u8) && ((((79u8 << 1u8) | (250u8 >> 7u8)) as u8) == 159u8))) && ((((((40u8 << 1u8) | (79u8 >> 7u8)) as u8) == 80u8) && ((((135u8 << 1u8) | (40u8 >> 7u8)) as u8) == 14u8)) && (((((230u8 << 1u8) | (135u8 >> 7u8)) as u8) == 205u8) && ((((230u8 >> 7u8) & 1u8) == 1u8) && ((118u8 ^ 0x87u8) == 241u8))))))
}

#[verifier::opaque]
spec fn bytes_x_48() -> bool {
    (((((((241u8 << 1u8) as u8) == 226u8) && ((((75u8 << 1u8) | (241u8 >> 7u8)) as u8) == 151u8)) && (((((62u8 << 1u8) | (75u8 >> 7u8)) as u8) == 124u8) && ((((24u8 << 1u8) | (62u8 >> 7u8)) as u8) == 48u8))) && ((((((185u8 << 1u8) | (24u8 >> 7u8)) as u8) == 114u8) && ((((194u8 << 1u8) | (185u8 >> 7u8)) as u8) == 133u8)) && (((((7u8 << 1u8) | (194u8 >> 7u8)) as u8) == 15u8) && (((((103u8 << 1u8) | (7u8 >> 7u8)) as u8) == 206u8) && ((((176u8 << 1u8) | (103u8 >> 7u8)) as u8) == 96u8))))) && (((((((42u8 << 1u8) | (176u8 >> 7u8)) as u8) == 85u8) && ((((86u8 << 1u8) | (42u8 >> 7u8)) as u8) == 172u8)) && (((((244u8 << 1u8) | (86u8 >> 7u8)) as u8) == 232u8) && ((((159u8 << 1u8) | (244u8 >> 7u8)) as u8) == 63u8))) && ((((((80u8 << 1u8) | (159u8 >> 7u8)) as u8) == 161u8) && ((((14u8 << 1u8) | (80u8 >> 7u8)) as u8) == 28u8)) && (((((205u8 << 1u8) | (14u8 >> 7u8)) as u8) == 154u8) && ((((205u8 >> 7u8) & 1u8) == 1u8) && ((226u8 ^ 0x87u8) == 101u8))))))
}

#[verifier::opaque]
spec fn bytes_x_49() -> bool {
    (((((((101u8 << 1u8) as u8) == 202u8) && ((((151u8 << 1u8) | (101u8 >> 7u8)) as u8) == 46u8)) && (((((124u8 << 1u8) | (151u8 >> 7u8)) as u8) == 249u8) && ((((48u8 << 1u8) | (124u8 >> 7u8)) as u8) == 96u8))) && ((((((114u8 << 1u8) | (48u8 >> 7u8)) as u8) == 228u8) && ((((133u8 << 1u8) | (114u8 >> 7u8)) as u8) == 10u8)) && (((((15u8 << 1u8) | (133u8 >> 7u8)) as u8) == 31u8) && (((((206u8 << 1u8) | (15u8 >> 7u8)) as u8) == 156u8) && ((((96u8 << 1u8) | (206u8 >> 7u8)) as u8) == 193u8))))) && (((((((85u8 << 1u8) | (96u8 >> 7u8)) as u8) == 170u8) && ((((172u8 << 1u8) | (85u8 >> 7u8)) as u8) == 88u8)) && (((((232u8 << 1u8) | (172u8 >> 7u8)) as u8) == 209u8) && ((((63u8 << 1u8) | (232u8 >> 7u8)) as u8) == 127u8))) && ((((((161u8 << 1u8) | (63u8 >> 7u8)) as u8) == 66u8) && ((((28u8 << 1u8) | (161u8 >> 7u8)) as u8) == 57u8)) && (((((154u8 << 1u8) | (28u8 >> 7u8)) as u8) == 52u8) && ((((154u8 >> 7u8) & 1u8) == 1u8) && ((202u8 ^ 0x87u8) == 77u8))))))
}

#[verifier::opaque]
spec fn bytes_x_50() -> bool {
    (((((((77u8 << 1u8) as u8) == 154u8) && ((((46u8 << 1u8) | (77u8 >> 7u8)) as u8) == 92u8)) && (((((249u8 << 1u8) | (46u8 >> 7u8)) as u8) == 242u8) && ((((96u8 << 1u8) | (249u8 >> 7u8)) as u8) == 193u8))) && ((((((228u8 << 1u8) | (96u8 >> 7u8)) as u8) == 200u8) && ((((10u8 << 1u8) | (228u8 >> 7u8)) as u8) == 21u8)) && (((((31u8 << 1u8) | (10u8 >> 7u8)) as u8) == 62u8) && ((((156u8 << 1u8) | (31u8 >> 7u8)) as u8) == 56u8)))) && (((((((193u8 << 1u8) | (156u8 >> 7u8)) as u8) == 131u8) && ((((170u8 << 1u8) | (193u8 >> 7u8)) as u8) == 85u8)) && (((((88u8 << 1u8) | (170u8 >> 7u8)) as u8) == 177u8) && ((((209u8 << 1u8) | (88u8 >> 7u8)) as u8) == 162u8))) && ((((((127u8 << 1u8) | (209u8 >> 7u8)) as u8) == 255u8) && ((((66u8 << 1u8) | (127u8 >> 7u8)) as u8) == 132u8)) && (((((57u8 << 1u8) | (66u8 >> 7u8)) as u8) == 114u8) && (((((52u8 << 1u8) | (57u8 >> 7u8)) as u8) == 104u8) && (((52u8 >> 7u8) & 1u8) == 0u8))))))
}

#[verifier::opaque]
spec fn bytes_x_51() -> bool {
    (((((((154u8 << 1u8) as u8) == 52u8) && ((((92u8 << 1u8) | (154u8 >> 7u8)) as u8) == 185u8)) && (((((242u8 << 1u8) | (92u8 >> 7u8)) as u8) == 228u8) && ((((193u8 << 1u8) | (242u8 >> 7u8)) as u8) == 131u8))) && ((((((200u8 << 1u8) | (193u8 >> 7u8)) as u8) == 145u8) && ((((21u8 << 1u8) | (200u8 >> 7u8)) as u8) == 43u8)) && (((((62u8 << 1u8) | (21u8 >> 7u8)) as u8) == 124u8) && ((((56u8 << 1u8) | (62u8 >> 7u8)) as u8) == 112u8)))) && (((((((131u8 << 1u8) | (56u8 >> 7u8)) as u8) == 6u8) && ((((85u8 << 1u8) | (131u8 >> 7u8)) as u8) == 171u8)) && (((((177u8 << 1u8) | (85u8 >> 7u8)) as u8) == 98u8) && ((((162u8 << 1u8) | (177u8 >> 7u8)) as u8) == 69u8))) && ((((((255u8 << 1u8) | (162u8 >> 7u8)) as u8) == 255u8) && ((((132u8 << 1u8) | (255u8 >> 7u8)) as u8) == 9u8)) && (((((114u8 << 1u8) | (132u8 >> 7u8)) as u8) == 229u8) && (((((104u8 << 1u8) | (114u8 >> 7u8)) as u8) == 208u8) && (((104u8 >> 7u8) & 1u8) == 0u8))))))
}

#[verifier::opaque]
spec fn bytes_x_52() -> bool {
    (((((((52u8 << 1u8) as u8) == 104u8) && ((((185u8 << 1u8) | (52u8 >> 7u8)) as u8) == 114u8)) && (((((228u8 << 1u8) | (185u8 >> 7u8)) as u8) == 201u8) && ((((131u8 << 1u8) | (228u8 >> 7u8)) as u8) == 7u8))) && ((((((145u8 << 1u8) | (131u8 >> 7u8)) as u8) == 35u8) && ((((43u8 << 1u8) | (145u8 >> 7u8)) as u8) == 87u8)) && (((((124u8 << 1u8) | (43u8 >> 7u8)) as u8) == 248u8) && (((((112u8 << 1u8) | (124u8 >> 7u8)) as u8) == 224u8) && ((((6u8 << 1u8) | (112u8 >> 7u8)) as u8) == 12u8))))) && (((((((171u8 << 1u8) | (6u8 >> 7u8)) as u8) == 86u8) && ((((98u8 << 1u8) | (171u8 >> 7u8)) as u8) == 197u8)) && (((((69u8 << 1u8) | (98u8 >> 7u8)) as u8) == 138u8) && ((((255u8 << 1u8) | (69u8 >> 7u8)) as u8) == 254u8))) && ((((((9u8 << 1u8) | (255u8 >> 7u8)) as u8) == 19u8) && ((((229u8 << 1u8) | (9u8 >> 7u8)) as u8) == 202u8)) && (((((208u8 << 1u8) | (229u8 >> 7u8)) as u8) == 161u8) && ((((208u8 >> 7u8) & 1u8) == 1u8) && ((104u8 ^ 0x87u8) == 239u8))))))
}

#[verifier::opaque]
spec fn bytes_x_53() -> bool {
    (((((((239u8 << 1u8) as u8) == 222u8) && ((((114u8 << 1u8) | (239u8 >> 7u8)) as u8) == 229u8)) && (((((201u8 << 1u8) | (114u8 >> 7u8)) as u8) == 146u8) && ((((7u8 << 1u8) | (201u8 >> 7u8)) as u8) == 15u8))) && ((((((35u8 << 1u8) | (7u8 >> 7u8)) as u8) == 70u8) && ((((87u8 << 1u8) | (35u8 >> 7u8)) as u8) == 174u8)) && (((((248u8 << 1u8) | (87u8 >> 7u8)) as u8) == 240u8) && (((((224u8 << 1u8) | (248u8 >> 7u8)) as u8) == 193u8) && ((((12u8 << 1u8) | (224u8 >> 7u8)) as u8) == 25u8))))) && (((((((86u8 << 1u8) | (12u8 >> 7u8)) as u8) == 172u8) && ((((197u8 << 1u8) | (86u8 >> 7u8)) as u8) == 138u8)) && (((((138u8 << 1u8) | (197u8 >> 7u8)) as u8) == 21u8) && ((((254u8 << 1u8) | (138u8 >> 7u8)) as u8) == 253u8))) && ((((((19u8 << 1u8) | (254u8 >> 7u8)) as u8) == 39u8) && ((((202u8 << 1u8) | (19u8 >> 7u8)) as u8) == 148u8)) && (((((161u8 << 1u8) | (202u8 >> 7u8)) as u8) == 67u8) && ((((161u8 >> 7u8) & 1u8) == 1u8) && ((222u8 ^ 0x87u8) == 89u8))))))
}

#[verifier::opaque]
spec fn bytes_x_54() -> bool {
    (((((((89u8 << 1u8) as u8) == 178u8) && ((((229u8 << 1u8) | (89u8 >> 7u8)) as u8) == 202u8)) && (((((146u8 << 1u8) | (229u8 >> 7u8)) as u8) == 37u8) && ((((15u8 << 1u8) | (146u8 >> 7u8)) as u8) == 31u8))) && ((((((70u8 << 1u8) | (15u8 >> 7u8)) as u8) == 140u8) && ((((174u8 << 1u8) | (70u8 >> 7u8)) as u8) == 92u8)) && (((((240u8 << 1u8) | (174u8 >> 7u8)) as u8) == 225u8) && ((((193u8 << 1u8) | (240u8 >> 7u8)) as u8) == 131u8)))) && (((((((25u8 << 1u8) | (193u8 >> 7u8)) as u8) == 51u8) && ((((172u8 << 1u8) | (25u8 >> 7u8)) as u8) == 88u8)) && (((((138u8 << 1u8) | (172u8 >> 7u8)) as u8) == 21u8) && ((((21u8 << 1u8) | (138u8 >> 7u8)) as u8) == 43u8))) && ((((((253u8 << 1u8) | (21u8 >> 7u8)) as u8) == 250u8) && ((((39u8 << 1u8) | (253u8 >> 7u8)) as u8) == 79u8)) && (((((148u8 << 1u8) | (39u8 >> 7u8)) as u8) == 40u8) && (((((67u8 << 1u8) | (148u8 >> 7u8)) as u8) == 135u8) && (((67u8 >> 7u8) & 1u8) == 0u8))))))
}

#[verifier::opaque]
spec fn bytes_x_55() -> bool {
    (((((((178u8 << 1u8) as u8) == 100u8) && ((((202u8 << 1u8) | (178u8 >> 7u8)) as u8) == 149u8)) && (((((37u8 << 1u8) | (202u8 >> 7u8)) as u8) == 75u8) && ((((31u8 << 1u8) | (37u8 >> 7u8)) as u8) == 62u8))) && ((((((140u8 << 1u8) | (31u8 >> 7u8)) as u8) == 24u8) && ((((92u8 << 1u8) | (140u8 >> 7u8)) as u8) == 185u8)) && (((((225u8 << 1u8) | (92u8 >> 7u8)) as u8) == 194u8) && (((((131u8 << 1u8) | (225u8 >> 7u8)) as u8) == 7u8) && ((((51u8 << 1u8) | (131u8 >> 7u8)) as u8) == 103u8))))) && (((((((88u8 << 1u8) | (51u8 >> 7u8)) as u8) == 176u8) && ((((21u8 << 1u8) | (88u8 >> 7u8)) as u8) == 42u8)) && (((((43u8 << 1u8) | (21u8 >> 7u8)) as u8) == 86u8) && ((((250u8 << 1u8) | (43u8 >> 7u8)) as u8) == 244u8))) && ((((((79u8 << 1u8) | (250u8 >> 7u8)) as u8) == 159u8) && ((((40u8 << 1u8) | (79u8 >> 7u8)) as u8) == 80u8)) && (((((135u8 << 1u8) | (40u8 >> 7u8)) as u8) == 14u8) && ((((135u8 >> 7u8) & 1u8) == 1u8) && ((100u8 ^ 0x87u8) == 227u8))))))
}

#[verifier::opaque]
spec fn bytes_x_56() -> bool {
    (((((((227u8 << 1u8) as u8) == 198u8) && ((((149u8 << 1u8) | (227u8 >> 7u8)) as u8) == 43u8)) && (((((75u8 << 1u8) | (149u8 >> 7u8)) as u8) == 151u8) && ((((62u8 << 1u8) | (75u8 >> 7u8)) as u8) == 124u8))) && ((((((24u8 << 1u8) | (62u8 >> 7u8)) as u8) == 48u8) && ((((185u8 << 1u8) | (24u8 >> 7u8)) as u8) == 114u8)) && (((((194u8 << 1u8) | (185u8 >> 7u8)) as u8) == 133u8) && ((((7u8 << 1u8) | (194u8 >> 7u8)) as u8) == 15u8)))) && (((((((103u8 << 1u8) | (7u8 >> 7u8)) as u8) == 206u8) && ((((176u8 << 1u8) | (103u8 >> 7u8)) as u8) == 96u8)) && (((((42u8 << 1u8) | (176u8 >> 7u8)) as u8) == 85u8) && ((((86u8 << 1u8) | (42u8 >> 7u8)) as u8) == 172u8))) && ((((((244u8 << 1u8) | (86u8 >> 7u8)) as u8) == 232u8) && ((((159u8 << 1u8) | (244u8 >> 7u8)) as u8) == 63u8)) && (((((80u8 << 1u8) | (159u8 >> 7u8)) as u8) == 161u8) && (((((14u8 << 1u8) | (80u8 >> 7u8)) as u8) == 28u8) && (((14u8 >> 7u8) & 1u8) == 0u8))))))
}

#[verifier::opaque]
spec fn bytes_x_57() -> bool {
    (((((((198u8 << 1u8) as u8) == 140u8) && ((((43u8 << 1u8) | (198u8 >> 7u8)) as u8) == 87u8)) && (((((151u8 << 1u8) | (43u8 >> 7u8)) as u8) == 46u8) && ((((124u8 << 1u8) | (151u8 >> 7u8)) as u8) == 249u8))) && ((((((48u8 << 1u8) | (124u8 >> 7u8)) as u8) == 96u8) && ((((114u8 << 1u8) | (48u8 >> 7u8)) as u8) == 228u8)) && (((((133u8 << 1u8) | (114u8 >> 7u8)) as u8) == 10u8) && ((((15u8 << 1u8) | (133u8 >> 7u8)) as u8) == 31u8)))) && (((((((206u8 << 1u8) | (15u8 >> 7u8)) as u8) == 156u8) && ((((96u8 << 1u8) | (206u8 >> 7u8)) as u8) == 193u8)) && (((((85u8 << 1u8) | (96u8 >> 7u8)) as u8) == 170u8) && ((((172u8 << 1u8) | (85u8 >> 7u8)) as u8) == 88u8))) && ((((((232u8 << 1u8) | (172u8 >> 7u8)) as u8) == 209u8) && ((((63u8 << 1u8) | (232u8 >> 7u8)) as u8) == 127u8)) && (((((161u8 << 1u8) | (63u8 >> 7u8)) as u8) == 66u8) && (((((28u8 << 1u8) | (161u8 >> 7u8)) as u8) == 57u8) && (((28u8 >> 7u8) & 1u8) == 0u8))))))
}

#[verifier::opaque]
spec fn bytes_x_58() -> bool {
    (((((((140u8 << 1u8) as u8) == 24u8) && ((((87u8 << 1u8) | (140u8 >> 7u8)) as u8) == 175u8)) && (((((46u8 << 1u8) | (87u8 >> 7u8)) as u8) == 92u8) && ((((249u8 << 1u8) | (46u8 >> 7u8)) as u8) == 242u8))) && ((((((96u8 << 1u8) | (249u8 >> 7u8)) as u8) == 193u8) && ((((228u8 << 1u8) | (96u8 >> 7u8)) as u8) == 200u8)) && (((((10u8 << 1u8) | (228u8 >> 7u8)) as u8) == 21u8) && ((((31u8 << 1u8) | (10u8 >> 7u8)) as u8) == 62u8)))) && (((((((156u8 << 1u8) | (31u8 >> 7u8)) as u8) == 56u8) && ((((193u8 << 1u8) | (156u8 >> 7u8)) as u8) == 131u8)) && (((((170u8 << 1u8) | (193u8 >> 7u8)) as u8) == 85u8) && ((((88u8 << 1u8) | (170u8 >> 7u8)) as u8) == 177u8))) && ((((((209u8 << 1u8) | (88u8 >> 7u8)) as u8) == 162u8) && ((((127u8 << 1u8) | (209u8 >> 7u8)) as u8) == 255u8)) && (((((66u8 << 1u8) | (127u8 >> 7u8)) as u8) == 132u8) && (((((57u8 << 1u8) | (66u8 >> 7u8)) as u8) == 114u8) && (((57u8 >> 7u8) & 1u8) == 0u8))))))
}

#[verifier::opaque]
spec fn bytes_x_59() -> bool {
    (((((((24u8 << 1u8) as u8) == 48u8) && ((((175u8 << 1u8) | (24u8 >> 7u8)) as u8) == 94u8)) && (((((92u8 << 1u8) | (175u8 >> 7u8)) as u8) == 185u8) && ((((242u8 << 1u8) | (92u8 >> 7u8)) as u8) == 228u8))) && ((((((193u8 << 1u8) | (242u8 >> 7u8)) as u8) == 131u8) && ((((200u8 << 1u8) | (193u8 >> 7u8)) as u8) == 145u8)) && (((((21u8 << 1u8) | (200u8 >> 7u8)) as u8) == 43u8) && ((((62u8 << 1u8) | (21u8 >> 7u8)) as u8) == 124u8)))) && (((((((56u8 << 1u8) | (62u8 >> 7u8)) as u8) == 112u8) && ((((131u8 << 1u8) | (56u8 >> 7u8)) as u8) == 6u8)) && (((((85u8 << 1u8) | (131u8 >> 7u8)) as u8) == 171u8) && ((((177u8 << 1u8) | (85u8 >> 7u8)) as u8) == 98u8))) && ((((((162u8 << 1u8) | (177u8 >> 7u8)) as u8) == 69u8) && ((((255u8 << 1u8) | (162u8 >> 7u8)) as u8) == 255u8)) && (((((132u8 << 1u8) | (255u8 >> 7u8)) as u8) == 9u8) && (((((114u8 << 1u8) | (132u8 >> 7u8)) as u8) == 229u8) && (((114u8 >> 7u8) & 1u8) == 0u8))))))
}

#[verifier::opaque]
spec fn bytes_x_60() -> bool {
    (((((((48u8 << 1u8) as u8) == 96u8) && ((((94u8 << 1u8) | (48u8 >> 7u8)) as u8) == 188u8)) && (((((185u8 << 1u8) | (94u8 >> 7u8)) as u8) == 114u8) && ((((228u8 << 1u8) | (185u8 >> 7u8)) as u8) == 201u8))) && ((((((131u8 << 1u8) | (228u8 >> 7u8)) as u8) == 7u8) && ((((145u8 << 1u8) | (131u8 >> 7u8)) as u8) == 35u8)) && (((((43u8 << 1u8) | (145u8 >> 7u8)) as u8) == 87u8) && (((((124u8 << 1u8) | (43u8 >> 7u8)) as u8) == 248u8) && ((((112u8 << 1u8) | (124u8 >> 7u8)) as u8) == 224u8))))) && (((((((6u8 << 1u8) | (112u8 >> 7u8)) as u8) == 12u8) && ((((171u8 << 1u8) | (6u8 >> 7u8)) as u8) == 86u8)) && (((((98u8 << 1u8) | (171u8 >> 7u8)) as u8) == 197u8) && ((((69u8 << 1u8) | (98u8 >> 7u8)) as u8) == 138u8))) && ((((((255u8 << 1u8) | (69u8 >> 7u8)) as u8) == 254u8) && ((((9u8 << 1u8) | (255u8 >> 7u8)) as u8) == 19u8)) && (((((229u8 << 1u8) | (9u8 >> 7u8)) as u8) == 202u8) && ((((229u8 >> 7u8) & 1u8) == 1u8) && ((96u8 ^ 0x87u8) == 231u8))))))
}

#[verifier::opaque]
spec fn bytes_x_61() -> bool {
    (((((((231u8 << 1u8) as u8) == 206u8) && ((((188u8 << 1u8) | (231u8 >> 7u8)) as u8) == 121u8)) && (((((114u8 << 1u8) | (188u8 >> 7u8)) as u8) == 229u8) && ((((201u8 << 1u8) | (114u8 >> 7u8)) as u8) == 146u8))) && ((((((7u8 << 1u8) | (201u8 >> 7u8)) as u8) == 15u8) && ((((35u8 << 1u8) | (7u8 >> 7u8)) as u8) == 70u8)) && (((((87u8 << 1u8) | (35u8 >> 7u8)) as u8) == 174u8) && (((((248u8 << 1u8) | (87u8 >> 7u8)) as u8) == 240u8) && ((((224u8 << 1u8) | (248u8 >> 7u8)) as u8) == 193u8))))) && (((((((12u8 << 1u8) | (224u8 >> 7u8)) as u8) == 25u8) && ((((86u8 << 1u8) | (12u8 >> 7u8)) as u8) == 172u8)) && (((((197u8 << 1u8) | (86u8 >> 7u8)) as u8) == 138u8) && ((((138u8 << 1u8) | (197u8 >> 7u8)) as u8) == 21u8))) && ((((((254u8 << 1u8) | (138u8 >> 7u8)) as u8) == 253u8) && ((((19u8 << 1u8) | (254u8 >> 7u8)) as u8) == 39u8)) && (((((202u8 << 1u8) | (19u8 >> 7u8)) as u8) == 148u8) && ((((202u8 >> 7u8) & 1u8) == 1u8) && ((206u8 ^ 0x87u8) == 73u8))))))
}

#[verifier::opaque]
spec fn bytes_x_62() -> bool {
    (((((((73u8 << 1u8) as u8) == 146u8) && ((((121u8 << 1u8) | (73u8 >> 7u8)) as u8) == 242u8)) && (((((229u8 << 1u8) | (121u8 >> 7u8)) as u8) == 202u8) && ((((146u8 << 1u8) | (229u8 >> 7u8)) as u8) == 37u8))) && ((((((15u8 << 1u8) | (146u8 >> 7u8)) as u8) == 31u8) && ((((70u8 << 1u8) | (15u8 >> 7u8)) as u8) == 140u8)) && (((((174u8 << 1u8) | (70u8 >> 7u8)) as u8) == 92u8) && (((((240u8 << 1u8) | (174u8 >> 7u8)) as u8) == 225u8) && ((((193u8 << 1u8) | (240u8 >> 7u8)) as u8) == 131u8))))) && (((((((25u8 << 1u8) | (193u8 >> 7u8)) as u8) == 51u8) && ((((172u8 << 1u8) | (25u8 >> 7u8)) as u8) == 88u8)) && (((((138u8 << 1u8) | (172u8 >> 7u8)) as u8) == 21u8) && ((((21u8 << 1u8) | (138u8 >> 7u8)) as u8) == 43u8))) && ((((((253u8 << 1u8) | (21u8 >> 7u8)) as u8) == 250u8) && ((((39u8 << 1u8) | (253u8 >> 7u8)) as u8) == 79u8)) && (((((148u8 << 1u8) | (39u8 >> 7u8)) as u8) == 40u8) && ((((148u8 >> 7u8) & 1u8) == 1u8) && ((146u8 ^ 0x87u8) == 21u8))))))
}

#[verifier::opaque]
spec fn bytes_x_63() -> bool {
    (((((((21u8 << 1u8) as u8) == 42u8) && ((((242u8 << 1u8) | (21u8 >> 7u8)) as u8) == 228u8)) && (((((202u8 << 1u8) | (242u8 >> 7u8)) as u8) == 149u8) && ((((37u8 << 1u8) | (202u8 >> 7u8)) as u8) == 75u8))) && ((((((31u8 << 1u8) | (37u8 >> 7u8)) as u8) == 62u8) && ((((140u8 << 1u8) | (31u8 >> 7u8)) as u8) == 24u8)) && (((((92u8 << 1u8) | (140u8 >> 7u8)) as u8) == 185u8) && ((((225u8 << 1u8) | (92u8 >> 7u8)) as u8) == 194u8)))) && (((((((131u8 << 1u8) | (225u8 >> 7u8)) as u8) == 7u8) && ((((51u8 << 1u8) | (131u8 >> 7u8)) as u8) == 103u8)) && (((((88u8 << 1u8) | (51u8 >> 7u8)) as u8) == 176u8) && ((((21u8 << 1u8) | (88u8 >> 7u8)) as u8) == 42u8))) && ((((((43u8 << 1u8) | (21u8 >> 7u8)) as u8) == 86u8) && ((((250u8 << 1u8) | (43u8 >> 7u8)) as u8) == 244u8)) && (((((79u8 << 1u8) | (250u8 >> 7u8)) as u8) == 159u8) && (((((40u8 << 1u8) | (79u8 >> 7u8)) as u8) == 80u8) && (((40u8 >> 7u8) & 1u8) == 0u8))))))
}

#[verifier::opaque]
spec fn bytes_x_64() -> bool {
    (((((((42u8 << 1u8) as u8) == 84u8) && ((((228u8 << 1u8) | (42u8 >> 7u8)) as u8) == 200u8)) && (((((149u8 << 1u8) | (228u8 >> 7u8)) as u8) == 43u8) && ((((75u8 << 1u8) | (149u8 >> 7u8)) as u8) == 151u8))) && ((((((62u8 << 1u8) | (75u8 >> 7u8)) as u8) == 124u8) && ((((24u8 << 1u8) | (62u8 >> 7u8)) as u8) == 48u8)) && (((((185u8 << 1u8) | (24u8 >> 7u8)) as u8) == 114u8) && ((((194u8 << 1u8) | (185u8 >> 7u8)) as u8) == 133u8)))) && (((((((7u8 << 1u8) | (194u8 >> 7u8)) as u8) == 15u8) && ((((103u8 << 1u8) | (7u8 >> 7u8)) as u8) == 206u8)) && (((((176u8 << 1u8) | (103u8 >> 7u8)) as u8) == 96u8) && ((((42u8 << 1u8) | (176u8 >> 7u8)) as u8) == 85u8))) && ((((((86u8 << 1u8) | (42u8 >> 7u8)) as u8) == 172u8) && ((((244u8 << 1u8) | (86u8 >> 7u8)) as u8) == 232u8)) && (((((159u8 << 1u8) | (244u8 >> 7u8)) as u8) == 63u8) && (((((80u8 << 1u8) | (159u8 >> 7u8)) as u8) == 161u8) && (((80u8 >> 7u8) & 1u8) == 0u8))))))
}

#[verifier::opaque]
spec fn bytes_x_65() -> bool {
    (((((((84u8 << 1u8) as u8) == 168u8) && ((((200u8 << 1u8) | (84u8 >> 7u8)) as u8) == 144u8)) && (((((43u8 << 1u8) | (200u8 >> 7u8)) as u8) == 87u8) && ((((151u8 << 1u8) | (43u8 >> 7u8)) as u8) == 46u8))) && ((((((124u8 << 1u8) | (151u8 >> 7u8)) as u8) == 249u8) && ((((48u8 << 1u8) | (124u8 >> 7u8)) as u8) == 96u8)) && (((((114u8 << 1u8) | (48u8 >> 7u8)) as u8) == 228u8) && (((((133u8 << 1u8) | (114u8 >> 7u8)) as u8) == 10u8) && ((((15u8 << 1u8) | (133u8 >> 7u8)) as u8) == 31u8))))) && (((((((206u8 << 1u8) | (15u8 >> 7u8)) as u8) == 156u8) && ((((96u8 << 1u8) | (206u8 >> 7u8)) as u8) == 193u8)) && (((((85u8 << 1u8) | (96u8 >> 7u8)) as u8) == 170u8) && ((((172u8 << 1u8) | (85u8 >> 7u8)) as u8) == 88u8))) && ((((((232u8 << 1u8) | (172u8 >> 7u8)) as u8) == 209u8) && ((((63u8 << 1u8) | (232u8 >> 7u8)) as u8) == 127u8)) && (((((161u8 << 1u8) | (63u8 >> 7u8)) as u8) == 66u8) && ((((161u8 >> 7u8) & 1u8) == 1u8) && ((168u8 ^ 0x87u8) == 47u8))))))
}

#[verifier::opaque]
spec fn bytes_x_66() -> bool {
    (((((((47u8 << 1u8) as u8) == 94u8) && ((((144u8 << 1u8) | (47u8 >> 7u8)) as u8) == 32u8)) && (((((87u8 << 1u8) | (144u8 >> 7u8)) as u8) == 175u8) && ((((46u8 << 1u8) | (87u8 >> 7u8)) as u8) == 92u8))) && ((((((249u8 << 1u8) | (46u8 >> 7u8)) as u8) == 242u8) && ((((96u8 << 1u8) | (249u8 >> 7u8)) as u8) == 193u8)) && (((((228u8 << 1u8) | (96u8 >> 7u8)) as u8) == 200u8) && ((((10u8 << 1u8) | (228u8 >> 7u8)) as u8) == 21u8)))) && (((((((31u8 << 1u8) | (10u8 >> 7u8)) as u8) == 62u8) && ((((156u8 << 1u8) | (31u8 >> 7u8)) as u8) == 56u8)) && (((((193u8 << 1u8) | (156u8 >> 7u8)) as u8) == 131u8) && ((((170u8 << 1u8) | (193u8 >> 7u8)) as u8) == 85u8))) && ((((((88u8 << 1u8) | (170u8 >> 7u8)) as u8) == 177u8) && ((((209u8 << 1u8) | (88u8 >> 7u8)) as u8) == 162u8)) && (((((127u8 << 1u8) | (209u8 >> 7u8)) as u8) == 255u8) && (((((66u8 << 1u8) | (127u8 >> 7u8)) as u8) == 132u8) && (((66u8 >> 7u8) & 1u8) == 0u8))))))
}

#[verifier::opaque]
spec fn bytes_x_67() -> bool {
    (((((((94u8 << 1u8) as u8) == 188u8) && ((((32u8 << 1u8) | (94u8 >> 7u8)) as u8) == 64u8)) && (((((175u8 << 1u8) | (32u8 >> 7u8)) as u8) == 94u8) && ((((92u8 << 1u8) | (175u8 >> 7u8)) as u8) == 185u8))) && ((((((242u8 << 1u8) | (92u8 >> 7u8)) as u8) == 228u8) && ((((193u8 << 1u8) | (242u8 >> 7u8)) as u8) == 131u8)) && (((((200u8 << 1u8) | (193u8 >> 7u8)) as u8) == 145u8) && (((((21u8 << 1u8) | (200u8 >> 7u8)) as u8) == 43u8) && ((((62u8 << 1u8) | (21u8 >> 7u8)) as u8) == 124u8))))) && (((((((56u8 << 1u8) | (62u8 >> 7u8)) as u8) == 112u8) && ((((131u8 << 1u8) | (56u8 >> 7u8)) as u8) == 6u8)) && (((((85u8 << 1u8) | (131u8 >> 7u8)) as u8) == 171u8) && ((((177u8 << 1u8) | (85u8 >> 7u8)) as u8) == 98u8))) && ((((((162u8 << 1u8) | (177u8 >> 7u8)) as u8) == 69u8) && ((((255u8 << 1u8) | (162u8 >> 7u8)) as u8) == 255u8)) && (((((132u8 << 1u8) | (255u8 >> 7u8)) as u8) == 9u8) && ((((132u8 >> 7u8) & 1u8) == 1u8) && ((188u8 ^ 0x87u8) == 59u8))))))
}

#[verifier::opaque]
spec fn bytes_x_68() -> bool {
    (((((((59u8 << 1u8) as u8) == 118u8) && ((((64u8 << 1u8) | (59u8 >> 7u8)) as u8) == 128u8)) && (((((94u8 << 1u8) | (64u8 >> 7u8)) as u8) == 188u8) && ((((185u8 << 1u8) | (94u8 >> 7u8)) as u8) == 114u8))) && ((((((228u8 << 1u8) | (185u8 >> 7u8)) as u8) == 201u8) && ((((131u8 << 1u8) | (228u8 >> 7u8)) as u8) == 7u8)) && (((((145u8 << 1u8) | (131u8 >> 7u8)) as u8) == 35u8) && ((((43u8 << 1u8) | (145u8 >> 7u8)) as u8) == 87u8)))) && (((((((124u8 << 1u8) | (43u8 >> 7u8)) as u8) == 248u8) && ((((112u8 << 1u8) | (124u8 >> 7u8)) as u8) == 224u8)) && (((((6u8 << 1u8) | (112u8 >> 7u8)) as u8) == 12u8) && ((((171u8 << 1u8) | (6u8 >> 7u8)) as u8) == 86u8))) && ((((((98u8 << 1u8) | (171u8 >> 7u8)) as u8) == 197u8) && ((((69u8 << 1u8) | (98u8 >> 7u8)) as u8) == 138u8)) && (((((255u8 << 1u8) | (69u8 >> 7u8)) as u8) == 254u8) && (((((9u8 << 1u8) | (255u8 >> 7u8)) as u8) == 19u8) && (((9u8 >> 7u8) & 1u8) == 0u8))))))
}

#[verifier::opaque]
spec fn bytes_x_69() -> bool {
    (((((((118u8 << 1u8) as u8) == 236u8) && ((((128u8 << 1u8) | (118u8 >> 7u8)) as u8) == 0u8)) && (((((188u8 << 1u8) | (128u8 >> 7u8)) as u8) == 121u8) && ((((114u8 << 1u8) | (188u8 >> 7u8)) as u8) == 229u8))) && ((((((201u8 << 1u8) | (114u8 >> 7u8)) as u8) == 146u8) && ((((7u8 << 1u8) | (201u8 >> 7u8)) as u8) == 15u8)) && (((((35u8 << 1u8) | (7u8 >> 7u8)) as u8) == 70u8) && ((((87u8 << 1u8) | (35u8 >> 7u8)) as u8) == 174u8)))) && (((((((248u8 << 1u8) | (87u8 >> 7u8)) as u8) == 240u8) && ((((224u8 << 1u8) | (248u8 >> 7u8)) as u8) == 193u8)) && (((((12u8 << 1u8) | (224u8 >> 7u8)) as u8) == 25u8) && ((((86u8 << 1u8) | (12u8 >> 7u8)) as u8) == 172u8))) && ((((((197u8 << 1u8) | (86u8 >> 7u8)) as u8) == 138u8) && ((((138u8 << 1u8) | (197u8 >> 7u8)) as u8) == 21u8)) && (((((254u8 << 1u8) | (138u8 >> 7u8)) as u8) == 253u8) && (((((19u8 << 1u8) | (254u8 >> 7u8)) as u8) == 39u8) && (((19u8 >> 7u8) & 1u8) == 0u8))))))
}

#[verifier::opaque]
spec fn bytes_x_70() -> bool {
    (((((((236u8 << 1u8) as u8) == 216u8) && ((((0u8 << 1u8) | (236u8 >> 7u8)) as u8) == 1u8)) && (((((121u8 << 1u8) | (0u8 >> 7u8)) as u8) == 242u8) && ((((229u8 << 1u8) | (121u8 >> 7u8)) as u8) == 202u8))) && ((((((146u8 << 1u8) | (229u8 >> 7u8)) as u8) == 37u8) && ((((15u8 << 1u8) | (146u8 >> 7u8)) as u8) == 31u8)) && (((((70u8 << 1u8) | (15u8 >> 7u8)) as u8) == 140u8) && ((((174u8 << 1u8) | (70u8 >> 7u8)) as u8) == 92u8)))) && (((((((240u8 << 1u8) | (174u8 >> 7u8)) as u8) == 225u8) && ((((193u8 << 1u8) | (240u8 >> 7u8)) as u8) == 131u8)) && (((((25u8 << 1u8) | (193u8 >> 7u8)) as u8) == 51u8) && ((((172u8 << 1u8) | (25u8 >> 7u8)) as u8) == 88u8))) && ((((((138u8 << 1u8) | (172u8 >> 7u8)) as u8) == 21u8) && ((((21u8 << 1u8) | (138u8 >> 7u8)) as u8) == 43u8)) && (((((253u8 << 1u8) | (21u8 >> 7u8)) as u8) == 250u8) && (((((39u8 << 1u8) | (253u8 >> 7u8)) as u8) == 79u8) && (((39u8 >> 7u8) & 1u8) == 0u8))))))
}

#[verifier::opaque]
spec fn bytes_x_71() -> bool {
    (((((((216u8 << 1u8) as u8) == 176u8) && ((((1u8 << 1u8) | (216u8 >> 7u8)) as u8) == 3u8)) && (((((242u8 << 1u8) | (1u8 >> 7u8)) as u8) == 228u8) && ((((202u8 << 1u8) | (242u8 >> 7u8)) as u8) == 149u8))) && ((((((37u8 << 1u8) | (202u8 >> 7u8)) as u8) == 75u8) && ((((31u8 << 1u8) | (37u8 >> 7u8)) as u8) == 62u8)) && (((((140u8 << 1u8) | (31u8 >> 7u8)) as u8) == 24u8) && ((((92u8 << 1u8) | (140u8 >> 7u8)) as u8) == 185u8)))) && (((((((225u8 << 1u8) | (92u8 >> 7u8)) as u8) == 194u8) && ((((131u8 << 1u8) | (225u8 >> 7u8)) as u8) == 7u8)) && (((((51u8 << 1u8) | (131u8 >> 7u8)) as u8) == 103u8) && ((((88u8 << 1u8) | (51u8 >> 7u8)) as u8) == 176u8))) && ((((((21u8 << 1u8) | (88u8 >> 7u8)) as u8) == 42u8) && ((((43u8 << 1u8) | (21u8 >> 7u8)) as u8) == 86u8)) && (((((250u8 << 1u8) | (43u8 >> 7u8)) as u8) == 244u8) && (((((79u8 << 1u8) | (250u8 >> 7u8)) as u8) == 159u8) && (((79u8 >> 7u8) & 1u8) == 0u8))))))
}

#[verifier::opaque]
spec fn bytes_x_72() -> bool {
    (((((((176u8 << 1u8) as u8) == 96u8) && ((((3u8 << 1u8) | (176u8 >> 7u8)) as u8) == 7u8)) && (((((228u8 << 1u8) | (3u8 >> 7u8)) as u8) == 200u8) && ((((149u8 << 1u8) | (228u8 >> 7u8)) as u8) == 43u8))) && ((((((75u8 << 1u8) | (149u8 >> 7u8)) as u8) == 151u8) && ((((62u8 << 1u8) | (75u8 >> 7u8)) as u8) == 124u8)) && (((((24u8 << 1u8) | (62u8 >> 7u8)) as u8) == 48u8) && (((((185u8 << 1u8) | (24u8 >> 7u8)) as u8) == 114u8) && ((((194u8 << 1u8) | (185u8 >> 7u8)) as u8) == 133u8))))) && (((((((7u8 << 1u8) | (194u8 >> 7u8)) as u8) == 15u8) && ((((103u8 << 1u8) | (7u8 >> 7u8)) as u8) == 206u8)) && (((((176u8 << 1u8) | (103u8 >> 7u8)) as u8) == 96u8) && ((((42u8 << 1u8) | (176u8 >> 7u8)) as u8) == 85u8))) && ((((((86u8 << 1u8) | (42u8 >> 7u8)) as u8) == 172u8) && ((((244u8 << 1u8) | (86u8 >> 7u8)) as u8) == 232u8)) && (((((159u8 << 1u8) | (244u8 >> 7u8)) as u8) == 63u8) && ((((159u8 >> 7u8) & 1u8) == 1u8) && ((96u8 ^ 0x87u8) == 231u8))))))
}

#[verifier::opaque]
spec fn bytes_x_73() -> bool {
    (((((((231u8 << 1u8) as u8) == 206u8) && ((((7u8 << 1u8) | (231u8 >> 7u8)) as u8) == 15u8)) && (((((200u8 << 1u8) | (7u8 >> 7u8)) as u8) == 144u8) && ((((43u8 << 1u8) | (200u8 >> 7u8)) as u8) == 87u8))) && ((((((151u8 << 1u8) | (43u8 >> 7u8)) as u8) == 46u8) && ((((124u8 << 1u8) | (151u8 >> 7u8)) as u8) == 249u8)) && (((((48u8 << 1u8) | (124u8 >> 7u8)) as u8) == 96u8) && ((((114u8 << 1u8) | (48u8 >> 7u8)) as u8) == 228u8)))) && (((((((133u8 << 1u8) | (114u8 >> 7u8)) as u8) == 10u8) && ((((15u8 << 1u8) | (133u8 >> 7u8)) as u8) == 31u8)) && (((((206u8 << 1u8) | (15u8 >> 7u8)) as u8) == 156u8) && ((((96u8 << 1u8) | (206u8 >> 7u8)) as u8) == 193u8))) && ((((((85u8 << 1u8) | (96u8 >> 7u8)) as u8) == 170u8) && ((((172u8 << 1u8) | (85u8 >> 7u8)) as u8) == 88u8)) && (((((232u8 << 1u8) | (172u8 >> 7u8)) as u8) == 209u8) && (((((63u8 << 1u8) | (232u8 >> 7u8)) as u8) == 127u8) && (((63u8 >> 7u8) & 1u8) == 0u8))))))
}

#[verifier::opaque]
spec fn bytes_x_74() -> bool {
    (((((((206u8 << 1u8) as u8) == 156u8) && ((((15u8 << 1u8) | (206u8 >> 7u8)) as u8) == 31u8)) && (((((144u8 << 1u8) | (15u8 >> 7u8)) as u8) == 32u8) && ((((87u8 << 1u8) | (144u8 >> 7u8)) as u8) == 175u8))) && ((((((46u8 << 1u8) | (87u8 >> 7u8)) as u8) == 92u8) && ((((249u8 << 1u8) | (46u8 >> 7u8)) as u8) == 242u8)) && (((((96u8 << 1u8) | (249u8 >> 7u8)) as u8) == 193u8) && ((((228u8 << 1u8) | (96u8 >> 7u8)) as u8) == 200u8)))) && (((((((10u8 << 1u8) | (228u8 >> 7u8)) as u8) == 21u8) && ((((31u8 << 1u8) | (10u8 >> 7u8)) as u8) == 62u8)) && (((((156u8 << 1u8) | (31u8 >> 7u8)) as u8) == 56u8) && ((((193u8 << 1u8) | (156u8 >> 7u8)) as u8) == 131u8))) && ((((((170u8 << 1u8) | (193u8 >> 7u8)) as u8) == 85u8) && ((((88u8 << 1u8) | (170u8 >> 7u8)) as u8) == 177u8)) && (((((209u8 << 1u8) | (88u8 >> 7u8)) as u8) == 162u8) && (((((127u8 << 1u8) | (209u8 >> 7u8)) as u8) == 255u8) && (((127u8 >> 7u8) & 1u8) == 0u8))))))
}

#[verifier::opaque]
spec fn bytes_x_75() -> bool {
    (((((((156u8 << 1u8) as u8) == 56u8) && ((((31u8 << 1u8) | (156u8 >> 7u8)) as u8) == 63u8)) && (((((32u8 << 1u8) | (31u8 >> 7u8)) as u8) == 64u8) && ((((175u8 << 1u8) | (32u8 >> 7u8)) as u8) == 94u8))) && ((((((92u8 << 1u8) | (175u8 >> 7u8)) as u8) == 185u8) && ((((242u8 << 1u8) | (92u8 >> 7u8)) as u8) == 228u8)) && (((((193u8 << 1u8) | (242u8 >> 7u8)) as u8) == 131u8) && (((((200u8 << 1u8) | (193u8 >> 7u8)) as u8) == 145u8) && ((((21u8 << 1u8) | (200u8 >> 7u8)) as u8) == 43u8))))) && (((((((62u8 << 1u8) | (21u8 >> 7u8)) as u8) == 124u8) && ((((56u8 << 1u8) | (62u8 >> 7u8)) as u8) == 112u8)) && (((((131u8 << 1u8) | (56u8 >> 7u8)) as u8) == 6u8) && ((((85u8 << 1u8) | (131u8 >> 7u8)) as u8) == 171u8))) && ((((((177u8 << 1u8) | (85u8 >> 7u8)) as u8) == 98u8) && ((((162u8 << 1u8) | (177u8 >> 7u8)) as u8) == 69u8)) && (((((255u8 << 1u8) | (162u8 >> 7u8)) as u8) == 255u8) && ((((255u8 >> 7u8) & 1u8) == 1u8) && ((56u8 ^ 0x87u8) == 191u8))))))
}

#[verifier::opaque]
spec fn bytes_x_76() -> bool {
    (((((((191u8 << 1u8) as u8) == 126u8) && ((((63u8 << 1u8) | (191u8 >> 7u8)) as u8) == 127u8)) && (((((64u8 << 1u8) | (63u8 >> 7u8)) as u8) == 128u8) && ((((94u8 << 1u8) | (64u8 >> 7u8)) as u8) == 188u8))) && ((((((185u8 << 1u8) | (94u8 >> 7u8)) as u8) == 114u8) && ((((228u8 << 1u8) | (185u8 >> 7u8)) as u8) == 201u8)) && (((((131u8 << 1u8) | (228u8 >> 7u8)) as u8) == 7u8) && (((((145u8 << 1u8) | (131u8 >> 7u8)) as u8) == 35u8) && ((((43u8 << 1u8) | (145u8 >> 7u8)) as u8) == 87u8))))) && (((((((124u8 << 1u8) | (43u8 >> 7u8)) as u8) == 248u8) && ((((112u8 << 1u8) | (124u8 >> 7u8)) as u8) == 224u8)) && (((((6u8 << 1u8) | (112u8 >> 7u8)) as u8) == 12u8) && ((((171u8 << 1u8) | (6u8 >> 7u8)) as u8) == 86u8))) && ((((((98u8 << 1u8) | (171u8 >> 7u8)) as u8) == 197u8) && ((((69u8 << 1u8) | (98u8 >> 7u8)) as u8) == 138u8)) && (((((255u8 << 1u8) | (69u8 >> 7u8)) as u8) == 254u8) && ((((255u8 >> 7u8) & 1u8) == 1u8) && ((126u8 ^ 0x87u8) == 249u8))))))
}

#[verifier::opaque]
spec fn bytes_x_77() -> bool {
    (((((((249u8 << 1u8) as u8) == 242u8) && ((((127u8 << 1u8) | (249u8 >> 7u8)) as u8) == 255u8)) && (((((128u8 << 1u8) | (127u8 >> 7u8)) as u8) == 0u8) && ((((188u8 << 1u8) | (128u8 >> 7u8)) as u8) == 121u8))) && ((((((114u8 << 1u8) | (188u8 >> 7u8)) as u8) == 229u8) && ((((201u8 << 1u8) | (114u8 >> 7u8)) as u8) == 146u8)) && (((((7u8 << 1u8) | (201u8 >> 7u8)) as u8) == 15u8) && (((((35u8 << 1u8) | (7u8 >> 7u8)) as u8) == 70u8) && ((((87u8 << 1u8) | (35u8 >> 7u8)) as u8) == 174u8))))) && (((((((248u8 << 1u8) | (87u8 >> 7u8)) as u8) == 240u8) && ((((224u8 << 1u8) | (248u8 >> 7u8)) as u8) == 193u8)) && (((((12u8 << 1u8) | (224u8 >> 7u8)) as u8) == 25u8) && ((((86u8 << 1u8) | (12u8 >> 7u8)) as u8) == 172u8))) && ((((((197u8 << 1u8) | (86u8 >> 7u8)) as u8) == 138u8) && ((((138u8 << 1u8) | (197u8 >> 7u8)) as u8) == 21u8)) && (((((254u8 << 1u8) | (138u8 >> 7u8)) as u8) == 253u8) && ((((254u8 >> 7u8) & 1u8) == 1u8) && ((242u8 ^ 0x87u8) == 117u8))))))
}

#[verifier::opaque]
spec fn bytes_x_78() -> bool {
    (((((((117u8 << 1u8) as u8) == 234u8) && ((((255u8 << 1u8) | (117u8 >> 7u8)) as u8) == 254u8)) && (((((0u8 << 1u8) | (255u8 >> 7u8)) as u8) == 1u8) && ((((121u8 << 1u8) | (0u8 >> 7u8)) as u8) == 242u8))) && ((((((229u8 << 1u8) | (121u8 >> 7u8)) as u8) == 202u8) && ((((146u8 << 1u8) | (229u8 >> 7u8)) as u8) == 37u8)) && (((((15u8 << 1u8) | (146u8 >> 7u8)) as u8) == 31u8) && (((((70u8 << 1u8) | (15u8 >> 7u8)) as u8) == 140u8) && ((((174u8 << 1u8) | (70u8 >> 7u8)) as u8) == 92u8))))) && (((((((240u8 << 1u8) | (174u8 >> 7u8)) as u8) == 225u8) && ((((193u8 << 1u8) | (240u8 >> 7u8)) as u8) == 131u8)) && (((((25u8 << 1u8) | (193u8 >> 7u8)) as u8) == 51u8) && ((((172u8 << 1u8) | (25u8 >> 7u8)) as u8) == 88u8))) && ((((((138u8 << 1u8) | (172u8 >> 7u8)) as u8) == 21u8) && ((((21u8 << 1u8) | (138u8 >> 7u8)) as u8) == 43u8)) && (((((253u8 << 1u8) | (21u8 >> 7u8)) as u8) == 250u8) && ((((253u8 >> 7u8) & 1u8) == 1u8) && ((234u8 ^ 0x87u8) == 109u8))))))
}

#[verifier::opaque]
spec fn bytes_x_79() -> bool {
    (((((((109u8 << 1u8) as u8) == 218u8) && ((((254u8 << 1u8) | (109u8 >> 7u8)) as u8) == 252u8)) && (((((1u8 << 1u8) | (254u8 >> 7u8)) as u8) == 3u8) && ((((242u8 << 1u8) | (1u8 >> 7u8)) as u8) == 228u8))) && ((((((202u8 << 1u8) | (242u8 >> 7u8)) as u8) == 149u8) && ((((37u8 << 1u8) | (202u8 >> 7u8)) as u8) == 75u8)) && (((((31u8 << 1u8) | (37u8 >> 7u8)) as u8) == 62u8) && (((((140u8 << 1u8) | (31u8 >> 7u8)) as u8) == 24u8) && ((((92u8 << 1u8) | (140u8 >> 7u8)) as u8) == 185u8))))) && (((((((225u8 << 1u8) | (92u8 >> 7u8)) as u8) == 194u8) && ((((131u8 << 1u8) | (225u8 >> 7u8)) as u8) == 7u8)) && (((((51u8 << 1u8) | (131u8 >> 7u8)) as u8) == 103u8) && ((((88u8 << 1u8) | (51u8 >> 7u8)) as u8) == 176u8))) && ((((((21u8 << 1u8) | (88u8 >> 7u8)) as u8) == 42u8) && ((((43u8 << 1u8) | (21u8 >> 7u8)) as u8) == 86u8)) && (((((250u8 << 1u8) | (43u8 >> 7u8)) as u8) == 244u8) && ((((250u8 >> 7u8) & 1u8) == 1u8) && ((218u8 ^ 0x87u8) == 93u8))))))
}

#[verifier::opaque]
spec fn bytes_x_80() -> bool {
    (((((((93u8 << 1u8) as u8) == 186u8) && ((((252u8 << 1u8) | (93u8 >> 7u8)) as u8) == 248u8)) && (((((3u8 << 1u8) | (252u8 >> 7u8)) as u8) == 7u8) && ((((228u8 << 1u8) | (3u8 >> 7u8)) as u8) == 200u8))) && ((((((149u8 << 1u8) | (228u8 >> 7u8)) as u8) == 43u8) && ((((75u8 << 1u8) | (149u8 >> 7u8)) as u8) == 151u8)) && (((((62u8 << 1u8) | (75u8 >> 7u8)) as u8) == 124u8) && (((((24u8 << 1u8) | (62u8 >> 7u8)) as u8) == 48u8) && ((((185u8 << 1u8) | (24u8 >> 7u8)) as u8) == 114u8))))) && (((((((194u8 << 1u8) | (185u8 >> 7u8)) as u8) == 133u8) && ((((7u8 << 1u8) | (194u8 >> 7u8)) as u8) == 15u8)) && (((((103u8 << 1u8) | (7u8 >> 7u8)) as u8) == 206u8) && ((((176u8 << 1u8) | (103u8 >> 7u8)) as u8) == 96u8))) && ((((((42u8 << 1u8) | (176u8 >> 7u8)) as u8) == 85u8) && ((((86u8 << 1u8) | (42u8 >> 7u8)) as u8) == 172u8)) && (((((244u8 << 1u8) | (86u8 >> 7u8)) as u8) == 232u8) && ((((244u8 >> 7u8) & 1u8) == 1u8) && ((186u8 ^ 0x87u8) == 61u8))))))
}

#[verifier::opaque]
spec fn bytes_x_81() -> bool {
    (((((((61u8 << 1u8) as u8) == 122u8) && ((((248u8 << 1u8) | (61u8 >> 7u8)) as u8) == 240u8)) && (((((7u8 << 1u8) | (248u8 >> 7u8)) as u8) == 15u8) && ((((200u8 << 1u8) | (7u8 >> 7u8)) as u8) == 144u8))) && ((((((43u8 << 1u8) | (200u8 >> 7u8)) as u8) == 87u8) && ((((151u8 << 1u8) | (43u8 >> 7u8)) as u8) == 46u8)) && (((((124u8 << 1u8) | (151u8 >> 7u8)) as u8) == 249u8) && (((((48u8 << 1u8) | (124u8 >> 7u8)) as u8) == 96u8) && ((((114u8 << 1u8) | (48u8 >> 7u8)) as u8) == 228u8))))) && (((((((133u8 << 1u8) | (114u8 >> 7u8)) as u8) == 10u8) && ((((15u8 << 1u8) | (133u8 >> 7u8)) as u8) == 31u8)) && (((((206u8 << 1u8) | (15u8 >> 7u8)) as u8) == 156u8) && ((((96u8 << 1u8) | (206u8 >> 7u8)) as u8) == 193u8))) && ((((((85u8 << 1u8) | (96u8 >> 7u8)) as u8) == 170u8) && ((((172u8 << 1u8) | (85u8 >> 7u8)) as u8) == 88u8)) && (((((232u8 << 1u8) | (172u8 >> 7u8)) as u8) == 209u8) && ((((232u8 >> 7u8) & 1u8) == 1u8) && ((122u8 ^ 0x87u8) == 253u8))))))
}

#[verifier::opaque]
spec fn bytes_x_82() -> bool {
    (((((((253u8 << 1u8) as u8) == 250u8) && ((((240u8 << 1u8) | (253u8 >> 7u8)) as u8) == 225u8)) && (((((15u8 << 1u8) | (240u8 >> 7u8)) as u8) == 31u8) && ((((144u8 << 1u8) | (15u8 >> 7u8)) as u8) == 32u8))) && ((((((87u8 << 1u8) | (144u8 >> 7u8)) as u8) == 175u8) && ((((46u8 << 1u8) | (87u8 >> 7u8)) as u8) == 92u8)) && (((((249u8 << 1u8) | (46u8 >> 7u8)) as u8) == 242u8) && (((((96u8 << 1u8) | (249u8 >> 7u8)) as u8) == 193u8) && ((((228u8 << 1u8) | (96u8 >> 7u8)) as u8) == 200u8))))) && (((((((10u8 << 1u8) | (228u8 >> 7u8)) as u8) == 21u8) && ((((31u8 << 1u8) | (10u8 >> 7u8)) as u8) == 62u8)) && (((((156u8 << 1u8) | (31u8 >> 7u8)) as u8) == 56u8) && ((((193u8 << 1u8) | (156u8 >> 7u8)) as u8) == 131u8))) && ((((((170u8 << 1u8) | (193u8 >> 7u8)) as u8) == 85u8) && ((((88u8 << 1u8) | (170u8 >> 7u8)) as u8) == 177u8)) && (((((209u8 << 1u8) | (88u8 >> 7u8)) as u8) == 162u8) && ((((209u8 >> 7u8) & 1u8) == 1u8) && ((250u8 ^ 0x87u8) == 125u8))))))
}

#[verifier::opaque]
spec fn bytes_x_83() -> bool {
    (((((((125u8 << 1u8) as u8) == 250u8) && ((((225u8 << 1u8) | (125u8 >> 7u8)) as u8) == 194u8)) && (((((31u8 << 1u8) | (225u8 >> 7u8)) as u8) == 63u8) && ((((32u8 << 1u8) | (31u8 >> 7u8)) as u8) == 64u8))) && ((((((175u8 << 1u8) | (32u8 >> 7u8)) as u8) == 94u8) && ((((92u8 << 1u8) | (175u8 >> 7u8)) as u8) == 185u8)) && (((((242u8 << 1u8) | (92u8 >> 7u8)) as u8) == 228u8) && (((((193u8 << 1u8) | (242u8 >> 7u8)) as u8) == 131u8) && ((((200u8 << 1u8) | (193u8 >> 7u8)) as u8) == 145u8))))) && (((((((21u8 << 1u8) | (200u8 >> 7u8)) as u8) == 43u8) && ((((62u8 << 1u8) | (21u8 >> 7u8)) as u8) == 124u8)) && (((((56u8 << 1u8) | (62u8 >> 7u8)) as u8) == 112u8) && ((((131u8 << 1u8) | (56u8 >> 7u8)) as u8) == 6u8))) && ((((((85u8 << 1u8) | (131u8 >> 7u8)) as u8) == 171u8) && ((((177u8 << 1u8) | (85u8 >> 7u8)) as u8) == 98u8)) && (((((162u8 << 1u8) | (177u8 >> 7u8)) as u8) == 69u8) && ((((162u8 >> 7u8) & 1u8) == 1u8) && ((250u8 ^ 0x87u8) == 125u8))))))
}

#[verifier::opaque]
spec fn bytes_x_84() -> bool {
    (((((((125u8 << 1u8) as u8) == 250u8) && ((((194u8 << 1u8) | (125u8 >> 7u8)) as u8) == 132u8)) && (((((63u8 << 1u8) | (194u8 >> 7u8)) as u8) == 127u8) && ((((64u8 << 1u8) | (63u8 >> 7u8)) as u8) == 128u8))) && ((((((94u8 << 1u8) | (64u8 >> 7u8)) as u8) == 188u8) && ((((185u8 << 1u8) | (94u8 >> 7u8)) as u8) == 114u8)) && (((((228u8 << 1u8) | (185u8 >> 7u8)) as u8) == 201u8) && ((((131u8 << 1u8) | (228u8 >> 7u8)) as u8) == 7u8)))) && (((((((145u8 << 1u8) | (131u8 >> 7u8)) as u8) == 35u8) && ((((43u8 << 1u8) | (145u8 >> 7u8)) as u8) == 87u8)) && (((((124u8 << 1u8) | (43u8 >> 7u8)) as u8) == 248u8) && ((((112u8 << 1u8) | (124u8 >> 7u8)) as u8) == 224u8))) && ((((((6u8 << 1u8) | (112u8 >> 7u8)) as u8) == 12u8) && ((((171u8 << 1u8) | (6u8 >> 7u8)) as u8) == 86u8)) && (((((98u8 << 1u8) | (171u8 >> 7u8)) as u8) == 197u8) && (((((69u8 << 1u8) | (98u8 >> 7u8)) as u8) == 138u8) && (((69u8 >> 7u8) & 1u8) == 0u8))))))
}

#[verifier::opaque]
spec fn bytes_x_85() -> bool {
    (((((((250u8 << 1u8) as u8) == 244u8) && ((((132u8 << 1u8) | (250u8 >> 7u8)) as u8) == 9u8)) && (((((127u8 << 1u8) | (132u8 >> 7u8)) as u8) == 255u8) && ((((128u8 << 1u8) | (127u8 >> 7u8)) as u8) == 0u8))) && ((((((188u8 << 1u8) | (128u8 >> 7u8)) as u8) == 121u8) && ((((114u8 << 1u8) | (188u8 >> 7u8)) as u8) == 229u8)) && (((((201u8 << 1u8) | (114u8 >> 7u8)) as u8) == 146u8) && (((((7u8 << 1u8) | (201u8 >> 7u8)) as u8) == 15u8) && ((((35u8 << 1u8) | (7u8 >> 7u8)) as u8) == 70u8))))) && (((((((87u8 << 1u8) | (35u8 >> 7u8)) as u8) == 174u8) && ((((248u8 << 1u8) | (87u8 >> 7u8)) as u8) == 240u8)) && (((((224u8 << 1u8) | (248u8 >> 7u8)) as u8) == 193u8) && ((((12u8 << 1u8) | (224u8 >> 7u8)) as u8) == 25u8))) && ((((((86u8 << 1u8) | (12u8 >> 7u8)) as u8) == 172u8) && ((((197u8 << 1u8) | (86u8 >> 7u8)) as u8) == 138u8)) && (((((138u8 << 1u8) | (197u8 >> 7u8)) as u8) == 21u8) && ((((138u8 >> 7u8) & 1u8) == 1u8) && ((244u8 ^ 0x87u8) == 115u8))))))
}

#[verifier::opaque]
spec fn bytes_x_86() -> bool {
    (((((((115u8 << 1u8) as u8) == 230u8) && ((((9u8 << 1u8) | (115u8 >> 7u8)) as u8) == 18u8)) && (((((255u8 << 1u8) | (9u8 >> 7u8)) as u8) == 254u8) && ((((0u8 << 1u8) | (255u8 >> 7u8)) as u8) == 1u8))) && ((((((121u8 << 1u8) | (0u8 >> 7u8)) as u8) == 242u8) && ((((229u8 << 1u8) | (121u8 >> 7u8)) as u8) == 202u8)) && (((((146u8 << 1u8) | (229u8 >> 7u8)) as u8) == 37u8) && ((((15u8 << 1u8) | (146u8 >> 7u8)) as u8) == 31u8)))) && (((((((70u8 << 1u8) | (15u8 >> 7u8)) as u8) == 140u8) && ((((174u8 << 1u8) | (70u8 >> 7u8)) as u8) == 92u8)) && (((((240u8 << 1u8) | (174u8 >> 7u8)) as u8) == 225u8) && ((((193u8 << 1u8) | (240u8 >> 7u8)) as u8) == 131u8))) && ((((((25u8 << 1u8) | (193u8 >> 7u8)) as u8) == 51u8) && ((((172u8 << 1u8) | (25u8 >> 7u8)) as u8) == 88u8)) && (((((138u8 << 1u8) | (172u8 >> 7u8)) as u8) == 21u8) && (((((21u8 << 1u8) | (138u8 >> 7u8)) as u8) == 43u8) && (((21u8 >> 7u8) & 1u8) == 0u8))))))
}

#[verifier::opaque]
spec fn bytes_x_87() -> bool {
    (((((((230u8 << 1u8) as u8) == 204u8) && ((((18u8 << 1u8) | (230u8 >> 7u8)) as u8) == 37u8)) && (((((254u8 << 1u8) | (18u8 >> 7u8)) as u8) == 252u8) && ((((1u8 << 1u8) | (254u8 >> 7u8)) as u8) == 3u8))) && ((((((242u8 << 1u8) | (1u8 >> 7u8)) as u8) == 228u8) && ((((202u8 << 1u8) | (242u8 >> 7u8)) as u8) == 149u8)) && (((((37u8 << 1u8) | (202u8 >> 7u8)) as u8) == 75u8) && ((((31u8 << 1u8) | (37u8 >> 7u8)) as u8) == 62u8)))) && (((((((140u8 << 1u8) | (31u8 >> 7u8)) as u8) == 24u8) && ((((92u8 << 1u8) | (140u8 >> 7u8)) as u8) == 185u8)) && (((((225u8 << 1u8) | (92u8 >> 7u8)) as u8) == 194u8) && ((((131u8 << 1u8) | (225u8 >> 7u8)) as u8) == 7u8))) && ((((((51u8 << 1u8) | (131u8 >> 7u8)) as u8) == 103u8) && ((((88u8 << 1u8) | (51u8 >> 7u8)) as u8) == 176u8)) && (((((21u8 << 1u8) | (88u8 >> 7u8)) as u8) == 42u8) && (((((43u8 << 1u8) | (21u8 >> 7u8)) as u8) == 86u8) && (((43u8 >> 7u8) & 1u8) == 0u8))))))
}

#[verifier::opaque]
spec fn bytes_x_88() -> bool {
    (((((((204u8 << 1u8) as u8) == 152u8) && ((((37u8 << 1u8) | (204u8 >> 7u8)) as u8) == 75u8)) && (((((252u8 << 1u8) | (37u8 >> 7u8)) as u8) == 248u8) && ((((3u8 << 1u8) | (252u8 >> 7u8)) as u8) == 7u8))) && ((((((228u8 << 1u8) | (3u8 >> 7u8)) as u8) == 200u8) && ((((149u8 << 1u8) | (228u8 >> 7u8)) as u8) == 43u8)) && (((((75u8 << 1u8) | (149u8 >> 7u8)) as u8) == 151u8) && ((((62u8 << 1u8) | (75u8 >> 7u8)) as u8) == 124u8)))) && (((((((24u8 << 1u8) | (62u8 >> 7u8)) as u8) == 48u8) && ((((185u8 << 1u8) | (24u8 >> 7u8)) as u8) == 114u8)) && (((((194u8 << 1u8) | (185u8 >> 7u8)) as u8) == 133u8) && ((((7u8 << 1u8) | (194u8 >> 7u8)) as u8) == 15u8))) && ((((((103u8 << 1u8) | (7u8 >> 7u8)) as u8) == 206u8) && ((((176u8 << 1u8) | (103u8 >> 7u8)) as u8) == 96u8)) && (((((42u8 << 1u8) | (176u8 >> 7u8)) as u8) == 85u8) && (((((86u8 << 1u8) | (42u8 >> 7u8)) as u8) == 172u8) && (((86u8 >> 7u8) & 1u8) == 0u8))))))
}

#[verifier::opaque]
spec fn bytes_x_89() -> bool {
    (((((((152u8 << 1u8) as u8) == 48u8) && ((((75u8 << 1u8) | (152u8 >> 7u8)) as u8) == 151u8)) && (((((248u8 << 1u8) | (75u8 >> 7u8)) as u8) == 240u8) && ((((7u8 << 1u8) | (248u8 >> 7u8)) as u8) == 15u8))) && ((((((200u8 << 1u8) | (7u8 >> 7u8)) as u8) == 144u8) && ((((43u8 << 1u8) | (200u8 >> 7u8)) as u8) == 87u8)) && (((((151u8 << 1u8) | (43u8 >> 7u8)) as u8) == 46u8) && (((((124u8 << 1u8) | (151u8 >> 7u8)) as u8) == 249u8) && ((((48u8 << 1u8) | (124u8 >> 7u8)) as u8) == 96u8))))) && (((((((114u8 << 1u8) | (48u8 >> 7u8)) as u8) == 228u8) && ((((133u8 << 1u8) | (114u8 >> 7u8)) as u8) == 10u8)) && (((((15u8 << 1u8) | (133u8 >> 7u8)) as u8) == 31u8) && ((((206u8 << 1u8) | (15u8 >> 7u8)) as u8) == 156u8))) && ((((((96u8 << 1u8) | (206u8 >> 7u8)) as u8) == 193u8) && ((((85u8 << 1u8) | (96u8 >> 7u8)) as u8) == 170u8)) && (((((172u8 << 1u8) | (85u8 >> 7u8)) as u8) == 88u8) && ((((172u8 >> 7u8) & 1u8) == 1u8) && ((48u8 ^ 0x87u8) == 183u8))))))
}

#[verifier::opaque]
spec fn bytes_x_90() -> bool {
    (((((((183u8 << 1u8) as u8) == 110u8) && ((((151u8 << 1u8) | (183u8 >> 7u8)) as u8) == 47u8)) && (((((240u8 << 1u8) | (151u8 >> 7u8)) as u8) == 225u8) && ((((15u8 << 1u8) | (240u8 >> 7u8)) as u8) == 31u8))) && ((((((144u8 << 1u8) | (15u8 >> 7u8)) as u8) == 32u8) && ((((87u8 << 1u8) | (144u8 >> 7u8)) as u8) == 175u8)) && (((((46u8 << 1u8) | (87u8 >> 7u8)) as u8) == 92u8) && ((((249u8 << 1u8) | (46u8 >> 7u8)) as u8) == 242u8)))) && (((((((96u8 << 1u8) | (249u8 >> 7u8)) as u8) == 193u8) && ((((228u8 << 1u8) | (96u8 >> 7u8)) as u8) == 200u8)) && (((((10u8 << 1u8) | (228u8 >> 7u8)) as u8) == 21u8) && ((((31u8 << 1u8) | (10u8 >> 7u8)) as u8) == 62u8))) && ((((((156u8 << 1u8) | (31u8 >> 7u8)) as u8) == 56u8) && ((((193u8 << 1u8) | (156u8 >> 7u8)) as u8) == 131u8)) && (((((170u8 << 1u8) | (193u8 >> 7u8)) as u8) == 85u8) && (((((88u8 << 1u8) | (170u8 >> 7u8)) as u8) == 177u8) && (((88u8 >> 7u8) & 1u8) == 0u8))))))
}

#[verifier::opaque]
spec fn bytes_x_91() -> bool {
    (((((((110u8 << 1u8) as u8) == 220u8) && ((((47u8 << 1u8) | (110u8 >> 7u8)) as u8) == 94u8)) && (((((225u8 << 1u8) | (47u8 >> 7u8)) as u8) == 194u8) && ((((31u8 << 1u8) | (225u8 >> 7u8)) as u8) == 63u8))) && ((((((32u8 << 1u8) | (31u8 >> 7u8)) as u8) == 64u8) && ((((175u8 << 1u8) | (32u8 >> 7u8)) as u8) == 94u8)) && (((((92u8 << 1u8) | (175u8 >> 7u8)) as u8) == 185u8) && (((((242u8 << 1u8) | (92u8 >> 7u8)) as u8) == 228u8) && ((((193u8 << 1u8) | (242u8 >> 7u8)) as u8) == 131u8))))) && (((((((200u8 << 1u8) | (193u8 >> 7u8)) as u8) == 145u8) && ((((21u8 << 1u8) | (200u8 >> 7u8)) as u8) == 43u8)) && (((((62u8 << 1u8) | (21u8 >> 7u8)) as u8) == 124u8) && ((((56u8 << 1u8) | (62u8 >> 7u8)) as u8) == 112u8))) && ((((((131u8 << 1u8) | (56u8 >> 7u8)) as u8) == 6u8) && ((((85u8 << 1u8) | (131u8 >> 7u8)) as u8) == 171u8)) && (((((177u8 << 1u8) | (85u8 >> 7u8)) as u8) == 98u8) && ((((177u8 >> 7u8) & 1u8) == 1u8) && ((220u8 ^ 0x87u8) == 91u8))))))
}

#[verifier::opaque]
spec fn bytes_x_92() -> bool {
    (((((((91u8 << 1u8) as u8) == 182u8) && ((((94u8 << 1u8) | (91u8 >> 7u8)) as u8) == 188u8)) && (((((194u8 << 1u8) | (94u8 >> 7u8)) as u8) == 132u8) && ((((63u8 << 1u8) | (194u8 >> 7u8)) as u8) == 127u8))) && ((((((64u8 << 1u8) | (63u8 >> 7u8)) as u8) == 128u8) && ((((94u8 << 1u8) | (64u8 >> 7u8)) as u8) == 188u8)) && (((((185u8 << 1u8) | (94u8 >> 7u8)) as u8) == 114u8) && ((((228u8 << 1u8) | (185u8 >> 7u8)) as u8) == 201u8)))) && (((((((131u8 << 1u8) | (228u8 >> 7u8)) as u8) == 7u8) && ((((145u8 << 1u8) | (131u8 >> 7u8)) as u8) == 35u8)) && (((((43u8 << 1u8) | (145u8 >> 7u8)) as u8) == 87u8) && ((((124u8 << 1u8) | (43u8 >> 7u8)) as u8) == 248u8))) && ((((((112u8 << 1u8) | (124u8 >> 7u8)) as u8) == 224u8) && ((((6u8 << 1u8) | (112u8 >> 7u8)) as u8) == 12u8)) && (((((171u8 << 1u8) | (6u8 >> 7u8)) as u8) == 86u8) && (((((98u8 << 1u8) | (171u8 >> 7u8)) as u8) == 197u8) && (((98u8 >> 7u8) & 1u8) == 0u8))))))
}

#[verifier::opaque]
spec fn bytes_x_93() -> bool {
    (((((((182u8 << 1u8) as u8) == 108u8) && ((((188u8 << 1u8) | (182u8 >> 7u8)) as u8) == 121u8)) && (((((132u8 << 1u8) | (188u8 >> 7u8)) as u8) == 9u8) && ((((127u8 << 1u8) | (132u8 >> 7u8)) as u8) == 255u8))) && ((((((128u8 << 1u8) | (127u8 >> 7u8)) as u8) == 0u8) && ((((188u8 << 1u8) | (128u8 >> 7u8)) as u8) == 121u8)) && (((((114u8 << 1u8) | (188u8 >> 7u8)) as u8) == 229u8) && (((((201u8 << 1u8) | (114u8 >> 7u8)) as u8) == 146u8) && ((((7u8 << 1u8) | (201u8 >> 7u8)) as u8) == 15u8))))) && (((((((35u8 << 1u8) | (7u8 >> 7u8)) as u8) == 70u8) && ((((87u8 << 1u8) | (35u8 >> 7u8)) as u8) == 174u8)) && (((((248u8 << 1u8) | (87u8 >> 7u8)) as u8) == 240u8) && ((((224u8 << 1u8) | (248u8 >> 7u8)) as u8) == 193u8))) && ((((((12u8 << 1u8) | (224u8 >> 7u8)) as u8) == 25u8) && ((((86u8 << 1u8) | (12u8 >> 7u8)) as u8) == 172u8)) && (((((197u8 << 1u8) | (86u8 >> 7u8)) as u8) == 138u8) && ((((197u8 >> 7u8) & 1u8) == 1u8) && ((108u8 ^ 0x87u8) == 235u8))))))
}

#[verifier::opaque]
spec fn bytes_x_94() -> bool {
    (((((((235u8 << 1u8) as u8) == 214u8) && ((((121u8 << 1u8) | (235u8 >> 7u8)) as u8) == 243u8)) && (((((9u8 << 1u8) | (121u8 >> 7u8)) as u8) == 18u8) && ((((255u8 << 1u8) | (9u8 >> 7u8)) as u8) == 254u8))) && ((((((0u8 << 1u8) | (255u8 >> 7u8)) as u8) == 1u8) && ((((121u8 << 1u8) | (0u8 >> 7u8)) as u8) == 242u8)) && (((((229u8 << 1u8) | (121u8 >> 7u8)) as u8) == 202u8) && (((((146u8 << 1u8) | (229u8 >> 7u8)) as u8) == 37u8) && ((((15u8 << 1u8) | (146u8 >> 7u8)) as u8) == 31u8))))) && (((((((70u8 << 1u8) | (15u8 >> 7u8)) as u8) == 140u8) && ((((174u8 << 1u8) | (70u8 >> 7u8)) as u8) == 92u8)) && (((((240u8 << 1u8) | (174u8 >> 7u8)) as u8) == 225u8) && ((((193u8 << 1u8) | (240u8 >> 7u8)) as u8) == 131u8))) && ((((((25u8 << 1u8) | (193u8 >> 7u8)) as u8) == 51u8) && ((((172u8 << 1u8) | (25u8 >> 7u8)) as u8) == 88u8)) && (((((138u8 << 1u8) | (172u8 >> 7u8)) as u8) == 21u8) && ((((138u8 >> 7u8) & 1u8) == 1u8) && ((214u8 ^ 0x87u8) == 81u8))))))
}

#[verifier::opaque]
spec fn bytes_x_95() -> bool {
    (((((((81u8 << 1u8) as u8) == 162u8) && ((((243u8 << 1u8) | (81u8 >> 7u8)) as u8) == 230u8)) && (((((18u8 << 1u8) | (243u8 >> 7u8)) as u8) == 37u8) && ((((254u8 << 1u8) | (18u8 >> 7u8)) as u8) == 252u8))) && ((((((1u8 << 1u8) | (254u8 >> 7u8)) as u8) == 3u8) && ((((242u8 << 1u8) | (1u8 >> 7u8)) as u8) == 228u8)) && (((((202u8 << 1u8) | (242u8 >> 7u8)) as u8) == 149u8) && ((((37u8 << 1u8) | (202u8 >> 7u8)) as u8) == 75u8)))) && (((((((31u8 << 1u8) | (37u8 >> 7u8)) as u8) == 62u8) && ((((140u8 << 1u8) | (31u8 >> 7u8)) as u8) == 24u8)) && (((((92u8 << 1u8) | (140u8 >> 7u8)) as u8) == 185u8) && ((((225u8 << 1u8) | (92u8 >> 7u8)) as u8) == 194u8))) && ((((((131u8 << 1u8) | (225u8 >> 7u8)) as u8) == 7u8) && ((((51u8 << 1u8) | (131u8 >> 7u8)) as u8) == 103u8)) && (((((88u8 << 1u8) | (51u8 >> 7u8)) as u8) == 176u8) && (((((21u8 << 1u8) | (88u8 >> 7u8)) as u8) == 42u8) && (((21u8 >> 7u8) & 1u8) == 0u8))))))
}

#[verifier::opaque]
spec fn bytes_x_96() -> bool {
    (((((((162u8 << 1u8) as u8) == 68u8) && ((((230u8 << 1u8) | (162u8 >> 7u8)) as u8) == 205u8)) && (((((37u8 << 1u8) | (230u8 >> 7u8)) as u8) == 75u8) && ((((252u8 << 1u8) | (37u8 >> 7u8)) as u8) == 248u8))) && ((((((3u8 << 1u8) | (252u8 >> 7u8)) as u8) == 7u8) && ((((228u8 << 1u8) | (3u8 >> 7u8)) as u8) == 200u8)) && (((((149u8 << 1u8) | (228u8 >> 7u8)) as u8) == 43u8) && ((((75u8 << 1u8) | (149u8 >> 7u8)) as u8) == 151u8)))) && (((((((62u8 << 1u8) | (75u8 >> 7u8)) as u8) == 124u8) && ((((24u8 << 1u8) | (62u8 >> 7u8)) as u8) == 48u8)) && (((((185u8 << 1u8) | (24u8 >> 7u8)) as u8) == 114u8) && ((((194u8 << 1u8) | (185u8 >> 7u8)) as u8) == 133u8))) && ((((((7u8 << 1u8) | (194u8 >> 7u8)) as u8) == 15u8) && ((((103u8 << 1u8) | (7u8 >> 7u8)) as u8) == 206u8)) && (((((176u8 << 1u8) | (103u8 >> 7u8)) as u8) == 96u8) && (((((42u8 << 1u8) | (176u8 >> 7u8)) as u8) == 85u8) && (((42u8 >> 7u8) & 1u8) == 0u8))))))
}

#[verifier::opaque]
spec fn bytes_x_97() -> bool {
    (((((((68u8 << 1u8) as u8) == 136u8) && ((((205u8 << 1u8) | (68u8 >> 7u8)) as u8) == 154u8)) && (((((75u8 << 1u8) | (205u8 >> 7u8)) as u8) == 151u8) && ((((248u8 << 1u8) | (75u8 >> 7u8)) as u8) == 240u8))) && ((((((7u8 << 1u8) | (248u8 >> 7u8)) as u8) == 15u8) && ((((200u8 << 1u8) | (7u8 >> 7u8)) as u8) == 144u8)) && (((((43u8 << 1u8) | (200u8 >> 7u8)) as u8) == 87u8) && ((((151u8 << 1u8) | (43u8 >> 7u8)) as u8) == 46u8)))) && (((((((124u8 << 1u8) | (151u8 >> 7u8)) as u8) == 249u8) && ((((48u8 << 1u8) | (124u8 >> 7u8)) as u8) == 96u8)) && (((((114u8 << 1u8) | (48u8 >> 7u8)) as u8) == 228u8) && ((((133u8 << 1u8) | (114u8 >> 7u8)) as u8) == 10u8))) && ((((((15u8 << 1u8) | (133u8 >> 7u8)) as u8) == 31u8) && ((((206u8 << 1u8) | (15u8 >> 7u8)) as u8) == 156u8)) && (((((96u8 << 1u8) | (206u8 >> 7u8)) as u8) == 193u8) && (((((85u8 << 1u8) | (96u8 >> 7u8)) as u8) == 170u8) && (((85u8 >> 7u8) & 1u8) == 0u8))))))
}

#[verifier::opaque]
spec fn bytes_x_98() -> bool {
    (((((((136u8 << 1u8) as u8) == 16u8) && ((((154u8 << 1u8) | (136u8 >> 7u8)) as u8) == 53u8)) && (((((151u8 << 1u8) | (154u8 >> 7u8)) as u8) == 47u8) && ((((240u8 << 1u8) | (151u8 >> 7u8)) as u8) == 225u8))) && ((((((15u8 << 1u8) | (240u8 >> 7u8)) as u8) == 31u8) && ((((144u8 << 1u8) | (15u8 >> 7u8)) as u8) == 32u8)) && (((((87u8 << 1u8) | (144u8 >> 7u8)) as u8) == 175u8) && (((((46u8 << 1u8) | (87u8 >> 7u8)) as u8) == 92u8) && ((((249u8 << 1u8) | (46u8 >> 7u8)) as u8) == 242u8))))) && (((((((96u8 << 1u8) | (249u8 >> 7u8)) as u8) == 193u8) && ((((228u8 << 1u8) | (96u8 >> 7u8)) as u8) == 200u8)) && (((((10u8 << 1u8) | (228u8 >> 7u8)) as u8) == 21u8) && ((((31u8 << 1u8) | (10u8 >> 7u8)) as u8) == 62u8))) && ((((((156u8 << 1u8) | (31u8 >> 7u8)) as u8) == 56u8) && ((((193u8 << 1u8) | (156u8 >> 7u8)) as u8) == 131u8)) && (((((170u8 << 1u8) | (193u8 >> 7u8)) as u8) == 85u8) && ((((170u8 >> 7u8) & 1u8) == 1u8) && ((16u8 ^ 0x87u8) == 151u8))))))
}

#[verifier::opaque]
spec fn bytes_x_99() -> bool {
    (((((((151u8 << 1u8) as u8) == 46u8) && ((((53u8 << 1u8) | (151u8 >> 7u8)) as u8) == 107u8)) && (((((47u8 << 1u8) | (53u8 >> 7u8)) as u8) == 94u8) && ((((225u8 << 1u8) | (47u8 >> 7u8)) as u8) == 194u8))) && ((((((31u8 << 1u8) | (225u8 >> 7u8)) as u8) == 63u8) && ((((32u8 << 1u8) | (31u8 >> 7u8)) as u8) == 64u8)) && (((((175u8 << 1u8) | (32u8 >> 7u8)) as u8) == 94u8) && ((((92u8 << 1u8) | (175u8 >> 7u8)) as u8) == 185u8)))) && (((((((242u8 << 1u8) | (92u8 >> 7u8)) as u8) == 228u8) && ((((193u8 << 1u8) | (242u8 >> 7u8)) as u8) == 131u8)) && (((((200u8 << 1u8) | (193u8 >> 7u8)) as u8) == 145u8) && ((((21u8 << 1u8) | (200u8 >> 7u8)) as u8) == 43u8))) && ((((((62u8 << 1u8) | (21u8 >> 7u8)) as u8) == 124u8) && ((((56u8 << 1u8) | (62u8 >> 7u8)) as u8) == 112u8)) && (((((131u8 << 1u8) | (56u8 >> 7u8)) as u8) == 6u8) && (((((85u8 << 1u8) | (131u8 >> 7u8)) as u8) == 171u8) && (((85u8 >> 7u8) & 1u8) == 0u8))))))
}

#[verifier::opaque]
spec fn bytes_x_100() -> bool {
    (((((((46u8 << 1u8) as u8) == 92u8) && ((((107u8 << 1u8) | (46u8 >> 7u8)) as u8) == 214u8)) && (((((94u8 << 1u8) | (107u8 >> 7u8)) as u8) == 188u8) && ((((194u8 << 1u8) | (94u8 >> 7u8)) as u8) == 132u8))) && ((((((63u8 << 1u8) | (194u8 >> 7u8)) as u8) == 127u8) && ((((64u8 << 1u8) | (63u8 >> 7u8)) as u8) == 128u8)) && (((((94u8 << 1u8) | (64u8 >> 7u8)) as u8) == 188u8) && (((((185u8 << 1u8) | (94u8 >> 7u8)) as u8) == 114u8) && ((((228u8 << 1u8) | (185u8 >> 7u8)) as u8) == 201u8))))) && (((((((131u8 << 1u8) | (228u8 >> 7u8)) as u8) == 7u8) && ((((145u8 << 1u8) | (131u8 >> 7u8)) as u8) == 35u8)) && (((((43u8 << 1u8) | (145u8 >> 7u8)) as u8) == 87u8) && ((((124u8 << 1u8) | (43u8 >> 7u8)) as u8) == 248u8))) && ((((((112u8 << 1u8) | (124u8 >> 7u8)) as u8) == 224u8) && ((((6u8 << 1u8) | (112u8 >> 7u8)) as u8) == 12u8)) && (((((171u8 << 1u8) | (6u8 >> 7u8)) as u8) == 86u8) && ((((171u8 >> 7u8) & 1u8) == 1u8) && ((92u8 ^ 0x87u8) == 219u8))))))
}

#[verifier::opaque]
spec fn bytes_x_101() -> bool {
    (((((((219u8 << 1u8) as u8) == 182u8) && ((((214u8 << 1u8) | (219u8 >> 7u8)) as u8) == 173u8)) && (((((188u8 << 1u8) | (214u8 >> 7u8)) as u8) == 121u8) && ((((132u8 << 1u8) | (188u8 >> 7u8)) as u8) == 9u8))) && ((((((127u8 << 1u8) | (132u8 >> 7u8)) as u8) == 255u8) && ((((128u8 << 1u8) | (127u8 >> 7u8)) as u8) == 0u8)) && (((((188u8 << 1u8) | (128u8 >> 7u8)) as u8) == 121u8) && ((((114u8 << 1u8) | (188u8 >> 7u8)) as u8) == 229u8)))) && (((((((201u8 << 1u8) | (114u8 >> 7u8)) as u8) == 146u8) && ((((7u8 << 1u8) | (201u8 >> 7u8)) as u8) == 15u8)) && (((((35u8 << 1u8) | (7u8 >> 7u8)) as u8) == 70u8) && ((((87u8 << 1u8) | (35u8 >> 7u8)) as u8) == 174u8))) && ((((((248u8 << 1u8) | (87u8 >> 7u8)) as u8) == 240u8) && ((((224u8 << 1u8) | (248u8 >> 7u8)) as u8) == 193u8)) && (((((12u8 << 1u8) | (224u8 >> 7u8)) as u8) == 25u8) && (((((86u8 << 1u8) | (12u8 >> 7u8)) as u8) == 172u8) && (((86u8 >> 7u8) & 1u8) == 0u8))))))
}

#[verifier::opaque]
spec fn bytes_x_102() -> bool {
    (((((((182u8 << 1u8) as u8) == 108u8) && ((((173u8 << 1u8) | (182u8 >> 7u8)) as u8) == 91u8)) && (((((121u8 << 1u8) | (173u8 >> 7u8)) as u8) == 243u8) && ((((9u8 << 1u8) | (121u8 >> 7u8)) as u8) == 18u8))) && ((((((255u8 << 1u8) | (9u8 >> 7u8)) as u8) == 254u8) && ((((0u8 << 1u8) | (255u8 >> 7u8)) as u8) == 1u8)) && (((((121u8 << 1u8) | (0u8 >> 7u8)) as u8) == 242u8) && (((((229u8 << 1u8) | (121u8 >> 7u8)) as u8) == 202u8) && ((((146u8 << 1u8) | (229u8 >> 7u8)) as u8) == 37u8))))) && (((((((15u8 << 1u8) | (146u8 >> 7u8)) as u8) == 31u8) && ((((70u8 << 1u8) | (15u8 >> 7u8)) as u8) == 140u8)) && (((((174u8 << 1u8) | (70u8 >> 7u8)) as u8) == 92u8) && ((((240u8 << 1u8) | (174u8 >> 7u8)) as u8) == 225u8))) && ((((((193u8 << 1u8) | (240u8 >> 7u8)) as u8) == 131u8) && ((((25u8 << 1u8) | (193u8 >> 7u8)) as u8) == 51u8)) && (((((172u8 << 1u8) | (25u8 >> 7u8)) as u8) == 88u8) && ((((172u8 >> 7u8) & 1u8) == 1u8) && ((108u8 ^ 0x87u8) == 235u8))))))
}

#[verifier::opaque]
spec fn bytes_x_103() -> bool {
    (((((((235u8 << 1u8) as u8) == 214u8) && ((((91u8 << 1u8) | (235u8 >> 7u8)) as u8) == 183u8)) && (((((243u8 << 1u8) | (91u8 >> 7u8)) as u8) == 230u8) && ((((18u8 << 1u8) | (243u8 >> 7u8)) as u8) == 37u8))) && ((((((254u8 << 1u8) | (18u8 >> 7u8)) as u8) == 252u8) && ((((1u8 << 1u8) | (254u8 >> 7u8)) as u8) == 3u8)) && (((((242u8 << 1u8) | (1u8 >> 7u8)) as u8) == 228u8) && ((((202u8 << 1u8) | (242u8 >> 7u8)) as u8) == 149u8)))) && (((((((37u8 << 1u8) | (202u8 >> 7u8)) as u8) == 75u8) && ((((31u8 << 1u8) | (37u8 >> 7u8)) as u8) == 62u8)) && (((((140u8 << 1u8) | (31u8 >> 7u8)) as u8) == 24u8) && ((((92u8 << 1u8) | (140u8 >> 7u8)) as u8) == 185u8))) && ((((((225u8 << 1u8) | (92u8 >> 7u8)) as u8) == 194u8) && ((((131u8 << 1u8) | (225u8 >> 7u8)) as u8) == 7u8)) && (((((51u8 << 1u8) | (131u8 >> 7u8)) as u8) == 103u8) && (((((88u8 << 1u8) | (51u8 >> 7u8)) as u8) == 176u8) && (((88u8 >> 7u8) & 1u8) == 0u8))))))
}

#[verifier::opaque]
spec fn bytes_x_104() -> bool {
    (((((((214u8 << 1u8) as u8) == 172u8) && ((((183u8 << 1u8) | (214u8 >> 7u8)) as u8) == 111u8)) && (((((230u8 << 1u8) | (183u8 >> 7u8)) as u8) == 205u8) && ((((37u8 << 1u8) | (230u8 >> 7u8)) as u8) == 75u8))) && ((((((252u8 << 1u8) | (37u8 >> 7u8)) as u8) == 248u8) && ((((3u8 << 1u8) | (252u8 >> 7u8)) as u8) == 7u8)) && (((((228u8 << 1u8) | (3u8 >> 7u8)) as u8) == 200u8) && (((((149u8 << 1u8) | (228u8 >> 7u8)) as u8) == 43u8) && ((((75u8 << 1u8) | (149u8 >> 7u8)) as u8) == 151u8))))) && (((((((62u8 << 1u8) | (75u8 >> 7u8)) as u8) == 124u8) && ((((24u8 << 1u8) | (62u8 >> 7u8)) as u8) == 48u8)) && (((((185u8 << 1u8) | (24u8 >> 7u8)) as u8) == 114u8) && ((((194u8 << 1u8) | (185u8 >> 7u8)) as u8) == 133u8))) && ((((((7u8 << 1u8) | (194u8 >> 7u8)) as u8) == 15u8) && ((((103u8 << 1u8) | (7u8 >> 7u8)) as u8) == 206u8)) && (((((176u8 << 1u8) | (103u8 >> 7u8)) as u8) == 96u8) && ((((176u8 >> 7u8) & 1u8) == 1u8) && ((172u8 ^ 0x87u8) == 43u8))))))
}

#[verifier::opaque]
spec fn bytes_x_105() -> bool {
    (((((((43u8 << 1u8) as u8) == 86u8) && ((((111u8 << 1u8) | (43u8 >> 7u8)) as u8) == 222u8)) && (((((205u8 << 1u8) | (111u8 >> 7u8)) as u8) == 154u8) && ((((75u8 << 1u8) | (205u8 >> 7u8)) as u8) == 151u8))) && ((((((248u8 << 1u8) | (75u8 >> 7u8)) as u8) == 240u8) && ((((7u8 << 1u8) | (248u8 >> 7u8)) as u8) == 15u8)) && (((((200u8 << 1u8) | (7u8 >> 7u8)) as u8) == 144u8) && ((((43u8 << 1u8) | (200u8 >> 7u8)) as u8) == 87u8)))) && (((((((151u8 << 1u8) | (43u8 >> 7u8)) as u8) == 46u8) && ((((124u8 << 1u8) | (151u8 >> 7u8)) as u8) == 249u8)) && (((((48u8 << 1u8) | (124u8 >> 7u8)) as u8) == 96u8) && ((((114u8 << 1u8) | (48u8 >> 7u8)) as u8) == 228u8))) && ((((((133u8 << 1u8) | (114u8 >> 7u8)) as u8) == 10u8) && ((((15u8 << 1u8) | (133u8 >> 7u8)) as u8) == 31u8)) && (((((206u8 << 1u8) | (15u8 >> 7u8)) as u8) == 156u8) && (((((96u8 << 1u8) | (206u8 >> 7u8)) as u8) == 193u8) && (((96u8 >> 7u8) & 1u8) == 0u8))))))
}

#[verifier::opaque]
spec fn bytes_x_106() -> bool {
    (((((((86u8 << 1u8) as u8) == 172u8) && ((((222u8 << 1u8) | (86u8 >> 7u8)) as u8) == 188u8)) && (((((154u8 << 1u8) | (222u8 >> 7u8)) as u8) == 53u8) && ((((151u8 << 1u8) | (154u8 >> 7u8)) as u8) == 47u8))) && ((((((240u8 << 1u8) | (151u8 >> 7u8)) as u8) == 225u8) && ((((15u8 << 1u8) | (240u8 >> 7u8)) as u8) == 31u8)) && (((((144u8 << 1u8) | (15u8 >> 7u8)) as u8) == 32u8) && (((((87u8 << 1u8) | (144u8 >> 7u8)) as u8) == 175u8) && ((((46u8 << 1u8) | (87u8 >> 7u8)) as u8) == 92u8))))) && (((((((249u8 << 1u8) | (46u8 >> 7u8)) as u8) == 242u8) && ((((96u8 << 1u8) | (249u8 >> 7u8)) as u8) == 193u8)) && (((((228u8 << 1u8) | (96u8 >> 7u8)) as u8) == 200u8) && ((((10u8 << 1u8) | (228u8 >> 7u8)) as u8) == 21u8))) && ((((((31u8 << 1u8) | (10u8 >> 7u8)) as u8) == 62u8) && ((((156u8 << 1u8) | (31u8 >> 7u8)) as u8) == 56u8)) && (((((193u8 << 1u8) | (156u8 >> 7u8)) as u8) == 131u8) && ((((193u8 >> 7u8) & 1u8) == 1u8) && ((172u8 ^ 0x87u8) == 43u8))))))
}

#[verifier::opaque]
spec fn bytes_x_107() -> bool {
    (((((((43u8 << 1u8) as u8) == 86u8) && ((((188u8 << 1u8) | (43u8 >> 7u8)) as u8) == 120u8)) && (((((53u8 << 1u8) | (188u8 >> 7u8)) as u8) == 107u8) && ((((47u8 << 1u8) | (53u8 >> 7u8)) as u8) == 94u8))) && ((((((225u8 << 1u8) | (47u8 >> 7u8)) as u8) == 194u8) && ((((31u8 << 1u8) | (225u8 >> 7u8)) as u8) == 63u8)) && (((((32u8 << 1u8) | (31u8 >> 7u8)) as u8) == 64u8) && (((((175u8 << 1u8) | (32u8 >> 7u8)) as u8) == 94u8) && ((((92u8 << 1u8) | (175u8 >> 7u8)) as u8) == 185u8))))) && (((((((242u8 << 1u8) | (92u8 >> 7u8)) as u8) == 228u8) && ((((193u8 << 1u8) | (242u8 >> 7u8)) as u8) == 131u8)) && (((((200u8 << 1u8) | (193u8 >> 7u8)) as u8) == 145u8) && ((((21u8 << 1u8) | (200u8 >> 7u8)) as u8) == 43u8))) && ((((((62u8 << 1u8) | (21u8 >> 7u8)) as u8) == 124u8) && ((((56u8 << 1u8) | (62u8 >> 7u8)) as u8) == 112u8)) && (((((131u8 << 1u8) | (56u8 >> 7u8)) as u8) == 6u8) && ((((131u8 >> 7u8) & 1u8) == 1u8) && ((86u8 ^ 0x87u8) == 209u8))))))
}

#[verifier::opaque]
spec fn bytes_x_108() -> bool {
    (((((((209u8 << 1u8) as u8) == 162u8) && ((((120u8 << 1u8) | (209u8 >> 7u8)) as u8) == 241u8)) && (((((107u8 << 1u8) | (120u8 >> 7u8)) as u8) == 214u8) && ((((94u8 << 1u8) | (107u8 >> 7u8)) as u8) == 188u8))) && ((((((194u8 << 1u8) | (94u8 >> 7u8)) as u8) == 132u8) && ((((63u8 << 1u8) | (194u8 >> 7u8)) as u8) == 127u8)) && (((((64u8 << 1u8) | (63u8 >> 7u8)) as u8) == 128u8) && ((((94u8 << 1u8) | (64u8 >> 7u8)) as u8) == 188u8)))) && (((((((185u8 << 1u8) | (94u8 >> 7u8)) as u8) == 114u8) && ((((228u8 << 1u8) | (185u8 >> 7u8)) as u8) == 201u8)) && (((((131u8 << 1u8) | (228u8 >> 7u8)) as u8) == 7u8) && ((((145u8 << 1u8) | (131u8 >> 7u8)) as u8) == 35u8))) && ((((((43u8 << 1u8) | (145u8 >> 7u8)) as u8) == 87u8) && ((((124u8 << 1u8) | (43u8 >> 7u8)) as u8) == 248u8)) && (((((112u8 << 1u8) | (124u8 >> 7u8)) as u8) == 224u8) && (((((6u8 << 1u8) | (112u8 >> 7u8)) as u8) == 12u8) && (((6u8 >> 7u8) & 1u8) == 0u8))))))
}

#[verifier::opaque]
spec fn bytes_x_109() -> bool {
    (((((((162u8 << 1u8) as u8) == 68u8) && ((((241u8 << 1u8) | (162u8 >> 7u8)) as u8) == 227u8)) && (((((214u8 << 1u8) | (241u8 >> 7u8)) as u8) == 173u8) && ((((188u8 << 1u8) | (214u8 >> 7u8)) as u8) == 121u8))) && ((((((132u8 << 1u8) | (188u8 >> 7u8)) as u8) == 9u8) && ((((127u8 << 1u8) | (132u8 >> 7u8)) as u8) == 255u8)) && (((((128u8 << 1u8) | (127u8 >> 7u8)) as u8) == 0u8) && ((((188u8 << 1u8) | (128u8 >> 7u8)) as u8) == 121u8)))) && (((((((114u8 << 1u8) | (188u8 >> 7u8)) as u8) == 229u8) && ((((201u8 << 1u8) | (114u8 >> 7u8)) as u8) == 146u8)) && (((((7u8 << 1u8) | (201u8 >> 7u8)) as u8) == 15u8) && ((((35u8 << 1u8) | (7u8 >> 7u8)) as u8) == 70u8))) && ((((((87u8 << 1u8) | (35u8 >> 7u8)) as u8) == 174u8) && ((((248u8 << 1u8) | (87u8 >> 7u8)) as u8) == 240u8)) && (((((224u8 << 1u8) | (248u8 >> 7u8)) as u8) == 193u8) && (((((12u8 << 1u8) | (224u8 >> 7u8)) as u8) == 25u8) && (((12u8 >> 7u8) & 1u8) == 0u8))))))
}

#[verifier::opaque]
spec fn bytes_x_110() -> bool {
    (((((((68u8 << 1u8) as u8) == 136u8) && ((((227u8 << 1u8) | (68u8 >> 7u8)) as u8) == 198u8)) && (((((173u8 << 1u8) | (227u8 >> 7u8)) as u8) == 91u8) && ((((121u8 << 1u8) | (173u8 >> 7u8)) as u8) == 243u8))) && ((((((9u8 << 1u8) | (121u8 >> 7u8)) as u8) == 18u8) && ((((255u8 << 1u8) | (9u8 >> 7u8)) as u8) == 254u8)) && (((((0u8 << 1u8) | (255u8 >> 7u8)) as u8) == 1u8) && ((((121u8 << 1u8) | (0u8 >> 7u8)) as u8) == 242u8)))) && (((((((229u8 << 1u8) | (121u8 >> 7u8)) as u8) == 202u8) && ((((146u8 << 1u8) | (229u8 >> 7u8)) as u8) == 37u8)) && (((((15u8 << 1u8) | (146u8 >> 7u8)) as u8) == 31u8) && ((((70u8 << 1u8) | (15u8 >> 7u8)) as u8) == 140u8))) && ((((((174u8 << 1u8) | (70u8 >> 7u8)) as u8) == 92u8) && ((((240u8 << 1u8) | (174u8 >> 7u8)) as u8) == 225u8)) && (((((193u8 << 1u8) | (240u8 >> 7u8)) as u8) == 131u8) && (((((25u8 << 1u8) | (193u8 >> 7u8)) as u8) == 51u8) && (((25u8 >> 7u8) & 1u8) == 0u8))))))
}

#[verifier::opaque]
spec fn bytes_x_111() -> bool {
    (((((((136u8 << 1u8) as u8) == 16u8) && ((((198u8 << 1u8) | (136u8 >> 7u8)) as u8) == 141u8)) && (((((91u8 << 1u8) | (198u8 >> 7u8)) as u8) == 183u8) && ((((243u8 << 1u8) | (91u8 >> 7u8)) as u8) == 230u8))) && ((((((18u8 << 1u8) | (243u8 >> 7u8)) as u8) == 37u8) && ((((254u8 << 1u8) | (18u8 >> 7u8)) as u8) == 252u8)) && (((((1u8 << 1u8) | (254u8 >> 7u8)) as u8) == 3u8) && ((((242u8 << 1u8) | (1u8 >> 7u8)) as u8) == 228u8)))) && (((((((202u8 << 1u8) | (242u8 >> 7u8)) as u8) == 149u8) && ((((37u8 << 1u8) | (202u8 >> 7u8)) as u8) == 75u8)) && (((((31u8 << 1u8) | (37u8 >> 7u8)) as u8) == 62u8) && ((((140u8 << 1u8) | (31u8 >> 7u8)) as u8) == 24u8))) && ((((((92u8 << 1u8) | (140u8 >> 7u8)) as u8) == 185u8) && ((((225u8 << 1u8) | (92u8 >> 7u8)) as u8) == 194u8)) && (((((131u8 << 1u8) | (225u8 >> 7u8)) as u8) == 7u8) && (((((51u8 << 1u8) | (131u8 >> 7u8)) as u8) == 103u8) && (((51u8 >> 7u8) & 1u8) == 0u8))))))
}

#[verifier::opaque]
spec fn bytes_x_112() -> bool {
    (((((((16u8 << 1u8) as u8) == 32u8) && ((((141u8 << 1u8) | (16u8 >> 7u8)) as u8) == 26u8)) && (((((183u8 << 1u8) | (141u8 >> 7u8)) as u8) == 111u8) && ((((230u8 << 1u8) | (183u8 >> 7u8)) as u8) == 205u8))) && ((((((37u8 << 1u8) | (230u8 >> 7u8)) as u8) == 75u8) && ((((252u8 << 1u8) | (37u8 >> 7u8)) as u8) == 248u8)) && (((((3u8 << 1u8) | (252u8 >> 7u8)) as u8) == 7u8) && ((((228u8 << 1u8) | (3u8 >> 7u8)) as u8) == 200u8)))) && (((((((149u8 << 1u8) | (228u8 >> 7u8)) as u8) == 43u8) && ((((75u8 << 1u8) | (149u8 >> 7u8)) as u8) == 151u8)) && (((((62u8 << 1u8) | (75u8 >> 7u8)) as u8) == 124u8) && ((((24u8 << 1u8) | (62u8 >> 7u8)) as u8) == 48u8))) && ((((((185u8 << 1u8) | (24u8 >> 7u8)) as u8) == 114u8) && ((((194u8 << 1u8) | (185u8 >> 7u8)) as u8) == 133u8)) && (((((7u8 << 1u8) | (194u8 >> 7u8)) as u8) == 15u8) && (((((103u8 << 1u8) | (7u8 >> 7u8)) as u8) == 206u8) && (((103u8 >> 7u8) & 1u8) == 0u8))))))
}

#[verifier::opaque]
spec fn bytes_x_113() -> bool {
    (((((((32u8 << 1u8) as u8) == 64u8) && ((((26u8 << 1u8) | (32u8 >> 7u8)) as u8) == 52u8)) && (((((111u8 << 1u8) | (26u8 >> 7u8)) as u8) == 222u8) && ((((205u8 << 1u8) | (111u8 >> 7u8)) as u8) == 154u8))) && ((((((75u8 << 1u8) | (205u8 >> 7u8)) as u8) == 151u8) && ((((248u8 << 1u8) | (75u8 >> 7u8)) as u8) == 240u8)) && (((((7u8 << 1u8) | (248u8 >> 7u8)) as u8) == 15u8) && (((((200u8 << 1u8) | (7u8 >> 7u8)) as u8) == 144u8) && ((((43u8 << 1u8) | (200u8 >> 7u8)) as u8) == 87u8))))) && (((((((151u8 << 1u8) | (43u8 >> 7u8)) as u8) == 46u8) && ((((124u8 << 1u8) | (151u8 >> 7u8)) as u8) == 249u8)) && (((((48u8 << 1u8) | (124u8 >> 7u8)) as u8) == 96u8) && ((((114u8 << 1u8) | (48u8 >> 7u8)) as u8) == 228u8))) && ((((((133u8 << 1u8) | (114u8 >> 7u8)) as u8) == 10u8) && ((((15u8 << 1u8) | (133u8 >> 7u8)) as u8) == 31u8)) && (((((206u8 << 1u8) | (15u8 >> 7u8)) as u8) == 156u8) && ((((206u8 >> 7u8) & 1u8) == 1u8) && ((64u8 ^ 0x87u8) == 199u8))))))
}

#[verifier::opaque]
spec fn bytes_x_114() -> bool {
    (((((((199u8 << 1u8) as u8) == 142u8) && ((((52u8 << 1u8) | (199u8 >> 7u8)) as u8) == 105u8)) && (((((222u8 << 1u8) | (52u8 >> 7u8)) as u8) == 188u8) && ((((154u8 << 1u8) | (222u8 >> 7u8)) as u8) == 53u8))) && ((((((151u8 << 1u8) | (154u8 >> 7u8)) as u8) == 47u8) && ((((240u8 << 1u8) | (151u8 >> 7u8)) as u8) == 225u8)) && (((((15u8 << 1u8) | (240u8 >> 7u8)) as u8) == 31u8) && (((((144u8 << 1u8) | (15u8 >> 7u8)) as u8) == 32u8) && ((((87u8 << 1u8) | (144u8 >> 7u8)) as u8) == 175u8))))) && (((((((46u8 << 1u8) | (87u8 >> 7u8)) as u8) == 92u8) && ((((249u8 << 1u8) | (46u8 >> 7u8)) as u8) == 242u8)) && (((((96u8 << 1u8) | (249u8 >> 7u8)) as u8) == 193u8) && ((((228u8 << 1u8) | (96u8 >> 7u8)) as u8) == 200u8))) && ((((((10u8 << 1u8) | (228u8 >> 7u8)) as u8) == 21u8) && ((((31u8 << 1u8) | (10u8 >> 7u8)) as u8) == 62u8)) && (((((156u8 << 1u8) | (31u8 >> 7u8)) as u8) == 56u8) && ((((156u8 >> 7u8) & 1u8) == 1u8) && ((142u8 ^ 0x87u8) == 9u8))))))
}

#[verifier::opaque]
spec fn bytes_x_115() -> bool {
    (((((((9u8 << 1u8) as u8) == 18u8) && ((((105u8 << 1u8) | (9u8 >> 7u8)) as u8) == 210u8)) && (((((188u8 << 1u8) | (105u8 >> 7u8)) as u8) == 120u8) && ((((53u8 << 1u8) | (188u8 >> 7u8)) as u8) == 107u8))) && ((((((47u8 << 1u8) | (53u8 >> 7u8)) as u8) == 94u8) && ((((225u8 << 1u8) | (47u8 >> 7u8)) as u8) == 194u8)) && (((((31u8 << 1u8) | (225u8 >> 7u8)) as u8) == 63u8) && ((((32u8 << 1u8) | (31u8 >> 7u8)) as u8) == 64u8)))) && (((((((175u8 << 1u8) | (32u8 >> 7u8)) as u8) == 94u8) && ((((92u8 << 1u8) | (175u8 >> 7u8)) as u8) == 185u8)) && (((((242u8 << 1u8) | (92u8 >> 7u8)) as u8) == 228u8) && ((((193u8 << 1u8) | (242u8 >> 7u8)) as u8) == 131u8))) && ((((((200u8 << 1u8) | (193u8 >> 7u8)) as u8) == 145u8) && ((((21u8 << 1u8) | (200u8 >> 7u8)) as u8) == 43u8)) && (((((62u8 << 1u8) | (21u8 >> 7u8)) as u8) == 124u8) && (((((56u8 << 1u8) | (62u8 >> 7u8)) as u8) == 112u8) && (((56u8 >> 7u8) & 1u8) == 0u8))))))
}

#[verifier::opaque]
spec fn bytes_x_116() -> bool {
    (((((((18u8 << 1u8) as u8) == 36u8) && ((((210u8 << 1u8) | (18u8 >> 7u8)) as u8) == 164u8)) && (((((120u8 << 1u8) | (210u8 >> 7u8)) as u8) == 241u8) && ((((107u8 << 1u8) | (120u8 >> 7u8)) as u8) == 214u8))) && ((((((94u8 << 1u8) | (107u8 >> 7u8)) as u8) == 188u8) && ((((194u8 << 1u8) | (94u8 >> 7u8)) as u8) == 132u8)) && (((((63u8 << 1u8) | (194u8 >> 7u8)) as u8) == 127u8) && ((((64u8 << 1u8) | (63u8 >> 7u8)) as u8) == 128u8)))) && (((((((94u8 << 1u8) | (64u8 >> 7u8)) as u8) == 188u8) && ((((185u8 << 1u8) | (94u8 >> 7u8)) as u8) == 114u8)) && (((((228u8 << 1u8) | (185u8 >> 7u8)) as u8) == 201u8) && ((((131u8 << 1u8) | (228u8 >> 7u8)) as u8) == 7u8))) && ((((((145u8 << 1u8) | (131u8 >> 7u8)) as u8) == 35u8) && ((((43u8 << 1u8) | (145u8 >> 7u8)) as u8) == 87u8)) && (((((124u8 << 1u8) | (43u8 >> 7u8)) as u8) == 248u8) && (((((112u8 << 1u8) | (124u8 >> 7u8)) as u8) == 224u8) && (((112u8 >> 7u8) & 1u8) == 0u8))))))
}

#[verifier::opaque]
spec fn bytes_x_117() -> bool {
    (((((((36u8 << 1u8) as u8) == 72u8) && ((((164u8 << 1u8) | (36u8 >> 7u8)) as u8) == 72u8)) && (((((241u8 << 1u8) | (164u8 >> 7u8)) as u8) == 227u8) && ((((214u8 << 1u8) | (241u8 >> 7u8)) as u8) == 173u8))) && ((((((188u8 << 1u8) | (214u8 >> 7u8)) as u8) == 121u8) && ((((132u8 << 1u8) | (188u8 >> 7u8)) as u8) == 9u8)) && (((((127u8 << 1u8) | (132u8 >> 7u8)) as u8) == 255u8) && (((((128u8 << 1u8) | (127u8 >> 7u8)) as u8) == 0u8) && ((((188u8 << 1u8) | (128u8 >> 7u8)) as u8) == 121u8))))) && (((((((114u8 << 1u8) | (188u8 >> 7u8)) as u8) == 229u8) && ((((201u8 << 1u8) | (114u8 >> 7u8)) as u8) == 146u8)) && (((((7u8 << 1u8) | (201u8 >> 7u8)) as u8) == 15u8) && ((((35u8 << 1u8) | (7u8 >> 7u8)) as u8) == 70u8))) && ((((((87u8 << 1u8) | (35u8 >> 7u8)) as u8) == 174u8) && ((((248u8 << 1u8) | (87u8 >> 7u8)) as u8) == 240u8)) && (((((224u8 << 1u8) | (248u8 >> 7u8)) as u8) == 193u8) && ((((224u8 >> 7u8) & 1u8) == 1u8) && ((72u8 ^ 0x87u8) == 207u8))))))
}

#[verifier::opaque]
spec fn bytes_x_118() -> bool {
    (((((((207u8 << 1u8) as u8) == 158u8) && ((((72u8 << 1u8) | (207u8 >> 7u8)) as u8) == 145u8)) && (((((227u8 << 1u8) | (72u8 >> 7u8)) as u8) == 198u8) && ((((173u8 << 1u8) | (227u8 >> 7u8)) as u8) == 91u8))) && ((((((121u8 << 1u8) | (173u8 >> 7u8)) as u8) == 243u8) && ((((9u8 << 1u8) | (121u8 >> 7u8)) as u8) == 18u8)) && (((((255u8 << 1u8) | (9u8 >> 7u8)) as u8) == 254u8) && (((((0u8 << 1u8) | (255u8 >> 7u8)) as u8) == 1u8) && ((((121u8 << 1u8) | (0u8 >> 7u8)) as u8) == 242u8))))) && (((((((229u8 << 1u8) | (121u8 >> 7u8)) as u8) == 202u8) && ((((146u8 << 1u8) | (229u8 >> 7u8)) as u8) == 37u8)) && (((((15u8 << 1u8) | (146u8 >> 7u8)) as u8) == 31u8) && ((((70u8 << 1u8) | (15u8 >> 7u8)) as u8) == 140u8))) && ((((((174u8 << 1u8) | (70u8 >> 7u8)) as u8) == 92u8) && ((((240u8 << 1u8) | (174u8 >> 7u8)) as u8) == 225u8)) && (((((193u8 << 1u8) | (240u8 >> 7u8)) as u8) == 131u8) && ((((193u8 >> 7u8) & 1u8) == 1u8) && ((158u8 ^ 0x87u8) == 25u8))))))
}

#[verifier::opaque]
spec fn bytes_x_119() -> bool {
    (((((((25u8 << 1u8) as u8) == 50u8) && ((((145u8 << 1u8) | (25u8 >> 7u8)) as u8) == 34u8)) && (((((198u8 << 1u8) | (145u8 >> 7u8)) as u8) == 141u8) && ((((91u8 << 1u8) | (198u8 >> 7u8)) as u8) == 183u8))) && ((((((243u8 << 1u8) | (91u8 >> 7u8)) as u8) == 230u8) && ((((18u8 << 1u8) | (243u8 >> 7u8)) as u8) == 37u8)) && (((((254u8 << 1u8) | (18u8 >> 7u8)) as u8) == 252u8) && (((((1u8 << 1u8) | (254u8 >> 7u8)) as u8) == 3u8) && ((((242u8 << 1u8) | (1u8 >> 7u8)) as u8) == 228u8))))) && (((((((202u8 << 1u8) | (242u8 >> 7u8)) as u8) == 149u8) && ((((37u8 << 1u8) | (202u8 >> 7u8)) as u8) == 75u8)) && (((((31u8 << 1u8) | (37u8 >> 7u8)) as u8) == 62u8) && ((((140u8 << 1u8) | (31u8 >> 7u8)) as u8) == 24u8))) && ((((((92u8 << 1u8) | (140u8 >> 7u8)) as u8) == 185u8) && ((((225u8 << 1u8) | (92u8 >> 7u8)) as u8) == 194u8)) && (((((131u8 << 1u8) | (225u8 >> 7u8)) as u8) == 7u8) && ((((131u8 >> 7u8) & 1u8) == 1u8) && ((50u8 ^ 0x87u8) == 181u8))))))
}

#[verifier::opaque]
spec fn bytes_x_120() -> bool {
    (((((((181u8 << 1u8) as u8) == 106u8) && ((((34u8 << 1u8) | (181u8 >> 7u8)) as u8) == 69u8)) && (((((141u8 << 1u8) | (34u8 >> 7u8)) as u8) == 26u8) && ((((183u8 << 1u8) | (141u8 >> 7u8)) as u8) == 111u8))) && ((((((230u8 << 1u8) | (183u8 >> 7u8)) as u8) == 205u8) && ((((37u8 << 1u8) | (230u8 >> 7u8)) as u8) == 75u8)) && (((((252u8 << 1u8) | (37u8 >> 7u8)) as u8) == 248u8) && ((((3u8 << 1u8) | (252u8 >> 7u8)) as u8) == 7u8)))) && (((((((228u8 << 1u8) | (3u8 >> 7u8)) as u8) == 200u8) && ((((149u8 << 1u8) | (228u8 >> 7u8)) as u8) == 43u8)) && (((((75u8 << 1u8) | (149u8 >> 7u8)) as u8) == 151u8) && ((((62u8 << 1u8) | (75u8 >> 7u8)) as u8) == 124u8))) && ((((((24u8 << 1u8) | (62u8 >> 7u8)) as u8) == 48u8) && ((((185u8 << 1u8) | (24u8 >> 7u8)) as u8) == 114u8)) && (((((194u8 << 1u8) | (185u8 >> 7u8)) as u8) == 133u8) && (((((7u8 << 1u8) | (194u8 >> 7u8)) as u8) == 15u8) && (((7u8 >> 7u8) & 1u8) == 0u8))))))
}

#[verifier::opaque]
spec fn bytes_x_121() -> bool {
    (((((((106u8 << 1u8) as u8) == 212u8) && ((((69u8 << 1u8) | (106u8 >> 7u8)) as u8) == 138u8)) && (((((26u8 << 1u8) | (69u8 >> 7u8)) as u8) == 52u8) && ((((111u8 << 1u8) | (26u8 >> 7u8)) as u8) == 222u8))) && ((((((205u8 << 1u8) | (111u8 >> 7u8)) as u8) == 154u8) && ((((75u8 << 1u8) | (205u8 >> 7u8)) as u8) == 151u8)) && (((((248u8 << 1u8) | (75u8 >> 7u8)) as u8) == 240u8) && ((((7u8 << 1u8) | (248u8 >> 7u8)) as u8) == 15u8)))) && (((((((200u8 << 1u8) | (7u8 >> 7u8)) as u8) == 144u8) && ((((43u8 << 1u8) | (200u8 >> 7u8)) as u8) == 87u8)) && (((((151u8 << 1u8) | (43u8 >> 7u8)) as u8) == 46u8) && ((((124u8 << 1u8) | (151u8 >> 7u8)) as u8) == 249u8))) && ((((((48u8 << 1u8) | (124u8 >> 7u8)) as u8) == 96u8) && ((((114u8 << 1u8) | (48u8 >> 7u8)) as u8) == 228u8)) && (((((133u8 << 1u8) | (114u8 >> 7u8)) as u8) == 10u8) && (((((15u8 << 1u8) | (133u8 >> 7u8)) as u8) == 31u8) && (((15u8 >> 7u8) & 1u8) == 0u8))))))
}

#[verifier::opaque]
spec fn bytes_x_122() -> bool {
    (((((((212u8 << 1u8) as u8) == 168u8) && ((((138u8 << 1u8) | (212u8 >> 7u8)) as u8) == 21u8)) && (((((52u8 << 1u8) | (138u8 >> 7u8)) as u8) == 105u8) && ((((222u8 << 1u8) | (52u8 >> 7u8)) as u8) == 188u8))) && ((((((154u8 << 1u8) | (222u8 >> 7u8)) as u8) == 53u8) && ((((151u8 << 1u8) | (154u8 >> 7u8)) as u8) == 47u8)) && (((((240u8 << 1u8) | (151u8 >> 7u8)) as u8) == 225u8) && ((((15u8 << 1u8) | (240u8 >> 7u8)) as u8) == 31u8)))) && (((((((144u8 << 1u8) | (15u8 >> 7u8)) as u8) == 32u8) && ((((87u8 << 1u8) | (144u8 >> 7u8)) as u8) == 175u8)) && (((((46u8 << 1u8) | (87u8 >> 7u8)) as u8) == 92u8) && ((((249u8 << 1u8) | (46u8 >> 7u8)) as u8) == 242u8))) && ((((((96u8 << 1u8) | (249u8 >> 7u8)) as u8) == 193u8) && ((((228u8 << 1u8) | (96u8 >> 7u8)) as u8) == 200u8)) && (((((10u8 << 1u8) | (228u8 >> 7u8)) as u8) == 21u8) && (((((31u8 << 1u8) | (10u8 >> 7u8)) as u8) == 62u8) && (((31u8 >> 7u8) & 1u8) == 0u8))))))
}

#[verifier::opaque]
spec fn bytes_x_123() -> bool {
    (((((((168u8 << 1u8) as u8) == 80u8) && ((((21u8 << 1u8) | (168u8 >> 7u8)) as u8) == 43u8)) && (((((105u8 << 1u8) | (21u8 >> 7u8)) as u8) == 210u8) && ((((188u8 << 1u8) | (105u8 >> 7u8)) as u8) == 120u8))) && ((((((53u8 << 1u8) | (188u8 >> 7u8)) as u8) == 107u8) && ((((47u8 << 1u8) | (53u8 >> 7u8)) as u8) == 94u8)) && (((((225u8 << 1u8) | (47u8 >> 7u8)) as u8) == 194u8) && ((((31u8 << 1u8) | (225u8 >> 7u8)) as u8) == 63u8)))) && (((((((32u8 << 1u8) | (31u8 >> 7u8)) as u8) == 64u8) && ((((175u8 << 1u8) | (32u8 >> 7u8)) as u8) == 94u8)) && (((((92u8 << 1u8) | (175u8 >> 7u8)) as u8) == 185u8) && ((((242u8 << 1u8) | (92u8 >> 7u8)) as u8) == 228u8))) && ((((((193u8 << 1u8) | (242u8 >> 7u8)) as u8) == 131u8) && ((((200u8 << 1u8) | (193u8 >> 7u8)) as u8) == 145u8)) && (((((21u8 << 1u8) | (200u8 >> 7u8)) as u8) == 43u8) && (((((62u8 << 1u8) | (21u8 >> 7u8)) as u8) == 124u8) && (((62u8 >> 7u8) & 1u8) == 0u8))))))
}

#[verifier::opaque]
spec fn bytes_x_124() -> bool {
    (((((((80u8 << 1u8) as u8) == 160u8) && ((((43u8 << 1u8) | (80u8 >> 7u8)) as u8) == 86u8)) && (((((210u8 << 1u8) | (43u8 >> 7u8)) as u8) == 164u8) && ((((120u8 << 1u8) | (210u8 >> 7u8)) as u8) == 241u8))) && ((((((107u8 << 1u8) | (120u8 >> 7u8)) as u8) == 214u8) && ((((94u8 << 1u8) | (107u8 >> 7u8)) as u8) == 188u8)) && (((((194u8 << 1u8) | (94u8 >> 7u8)) as u8) == 132u8) && ((((63u8 << 1u8) | (194u8 >> 7u8)) as u8) == 127u8)))) && (((((((64u8 << 1u8) | (63u8 >> 7u8)) as u8) == 128u8) && ((((94u8 << 1u8) | (64u8 >> 7u8)) as u8) == 188u8)) && (((((185u8 << 1u8) | (94u8 >> 7u8)) as u8) == 114u8) && ((((228u8 << 1u8) | (185u8 >> 7u8)) as u8) == 201u8))) && ((((((131u8 << 1u8) | (228u8 >> 7u8)) as u8) == 7u8) && ((((145u8 << 1u8) | (131u8 >> 7u8)) as u8) == 35u8)) && (((((43u8 << 1u8) | (145u8 >> 7u8)) as u8) == 87u8) && (((((124u8 << 1u8) | (43u8 >> 7u8)) as u8) == 248u8) && (((124u8 >> 7u8) & 1u8) == 0u8))))))
}

#[verifier::opaque]
spec fn bytes_x_125() -> bool {
    (((((((160u8 << 1u8) as u8) == 64u8) && ((((86u8 << 1u8) | (160u8 >> 7u8)) as u8) == 173u8)) && (((((164u8 << 1u8) | (86u8 >> 7u8)) as u8) == 72u8) && ((((241u8 << 1u8) | (164u8 >> 7u8)) as u8) == 227u8))) && ((((((214u8 << 1u8) | (241u8 >> 7u8)) as u8) == 173u8) && ((((188u8 << 1u8) | (214u8 >> 7u8)) as u8) == 121u8)) && (((((132u8 << 1u8) | (188u8 >> 7u8)) as u8) == 9u8) && (((((127u8 << 1u8) | (132u8 >> 7u8)) as u8) == 255u8) && ((((128u8 << 1u8) | (127u8 >> 7u8)) as u8) == 0u8))))) && (((((((188u8 << 1u8) | (128u8 >> 7u8)) as u8) == 121u8) && ((((114u8 << 1u8) | (188u8 >> 7u8)) as u8) == 229u8)) && (((((201u8 << 1u8) | (114u8 >> 7u8)) as u8) == 146u8) && ((((7u8 << 1u8) | (201u8 >> 7u8)) as u8) == 15u8))) && ((((((35u8 << 1u8) | (7u8 >> 7u8)) as u8) == 70u8) && ((((87u8 << 1u8) | (35u8 >> 7u8)) as u8) == 174u8)) && (((((248u8 << 1u8) | (87u8 >> 7u8)) as u8) == 240u8) && ((((248u8 >> 7u8) & 1u8) == 1u8) && ((64u8 ^ 0x87u8) == 199u8))))))
}

#[verifier::opaque]
spec fn bytes_x_126() -> bool {
    (((((((199u8 << 1u8) as u8) == 142u8) && ((((173u8 << 1u8) | (199u8 >> 7u8)) as u8) == 91u8)) && (((((72u8 << 1u8) | (173u8 >> 7u8)) as u8) == 145u8) && ((((227u8 << 1u8) | (72u8 >> 7u8)) as u8) == 198u8))) && ((((((173u8 << 1u8) | (227u8 >> 7u8)) as u8) == 91u8) && ((((121u8 << 1u8) | (173u8 >> 7u8)) as u8) == 243u8)) && (((((9u8 << 1u8) | (121u8 >> 7u8)) as u8) == 18u8) && (((((255u8 << 1u8) | (9u8 >> 7u8)) as u8) == 254u8) && ((((0u8 << 1u8) | (255u8 >> 7u8)) as u8) == 1u8))))) && (((((((121u8 << 1u8) | (0u8 >> 7u8)) as u8) == 242u8) && ((((229u8 << 1u8) | (121u8 >> 7u8)) as u8) == 202u8)) && (((((146u8 << 1u8) | (229u8 >> 7u8)) as u8) == 37u8) && ((((15u8 << 1u8) | (146u8 >> 7u8)) as u8) == 31u8))) && ((((((70u8 << 1u8) | (15u8 >> 7u8)) as u8) == 140u8) && ((((174u8 << 1u8) | (70u8 >> 7u8)) as u8) == 92u8)) && (((((240u8 << 1u8) | (174u8 >> 7u8)) as u8) == 225u8) && ((((240u8 >> 7u8) & 1u8) == 1u8) && ((142u8 ^ 0x87u8) == 9u8))))))
}

#[verifier::opaque]
spec fn bytes_x_127() -> bool {
    (((((((9u8 << 1u8) as u8) == 18u8) && ((((91u8 << 1u8) | (9u8 >> 7u8)) as u8) == 182u8)) && (((((145u8 << 1u8) | (91u8 >> 7u8)) as u8) == 34u8) && ((((198u8 << 1u8) | (145u8 >> 7u8)) as u8) == 141u8))) && ((((((91u8 << 1u8) | (198u8 >> 7u8)) as u8) == 183u8) && ((((243u8 << 1u8) | (91u8 >> 7u8)) as u8) == 230u8)) && (((((18u8 << 1u8) | (243u8 >> 7u8)) as u8) == 37u8) && (((((254u8 << 1u8) | (18u8 >> 7u8)) as u8) == 252u8) && ((((1u8 << 1u8) | (254u8 >> 7u8)) as u8) == 3u8))))) && (((((((242u8 << 1u8) | (1u8 >> 7u8)) as u8) == 228u8) && ((((202u8 << 1u8) | (242u8 >> 7u8)) as u8) == 149u8)) && (((((37u8 << 1u8) | (202u8 >> 7u8)) as u8) == 75u8) && ((((31u8 << 1u8) | (37u8 >> 7u8)) as u8) == 62u8))) && ((((((140u8 << 1u8) | (31u8 >> 7u8)) as u8) == 24u8) && ((((92u8 << 1u8) | (140u8 >> 7u8)) as u8) == 185u8)) && (((((225u8 << 1u8) | (92u8 >> 7u8)) as u8) == 194u8) && ((((225u8 >> 7u8) & 1u8) == 1u8) && ((18u8 ^ 0x87u8) == 149u8))))))
}

#[verifier::opaque]
spec fn bytes_p_1_1() -> bool {
    (((((bit_of(13u8, 0) == 1u8) && ((0u8 ^ 13u8) == 13u8)) && (((0u8 ^ 206u8) == 206u8) && ((0u8 ^ 96u8) == 96u8))) && ((((0u8 ^ 85u8) == 85u8) && ((0u8 ^ 172u8) == 172u8)) && (((0u8 ^ 232u8) == 232u8) && ((0u8 ^ 63u8) == 63u8)))) && (((((0u8 ^ 161u8) == 161u8) && ((0u8 ^ 28u8) == 28u8)) && (((0u8 ^ 154u8) == 154u8) && ((0u8 ^ 151u8) == 151u8))) && ((((0u8 ^ 169u8) == 169u8) && ((0u8 ^ 133u8) == 133u8)) && (((0u8 ^ 61u8) == 61u8) && ((0u8 ^ 5u8) == 5u8)))))
}

#[verifier::opaque]
spec fn bytes_p_1_2() -> bool {
    (bit_of(13u8, 1) == 0u8)
}

#[verifier::opaque]
spec fn bytes_p_1_3() -> bool {
    (((((bit_of(13u8, 2) == 1u8) && ((13u8 ^ 52u8) == 57u8)) && (((206u8 ^ 56u8) == 246u8) && ((96u8 ^ 131u8) == 227u8))) && ((((85u8 ^ 85u8) == 0u8) && ((172u8 ^ 177u8) == 29u8)) && (((232u8 ^ 162u8) == 74u8) && ((63u8 ^ 255u8) == 192u8)))) && (((((161u8 ^ 132u8) == 37u8) && ((28u8 ^ 114u8) == 110u8)) && (((154u8 ^ 104u8) == 242u8) && ((151u8 ^ 94u8) == 201u8))) && ((((169u8 ^ 166u8) == 15u8) && ((85u8 ^ 86u8) == 3u8)) && (((133u8 ^ 21u8) == 144u8) && (((61u8 ^ 246u8) == 203u8) && ((5u8 ^ 20u8) == 17u8))))))
}

#[verifier::opaque]
spec fn bytes_p_1_4() -> bool {
    (((((bit_of(13u8, 3) == 1u8) && ((57u8 ^ 104u8) == 81u8)) && (((246u8 ^ 112u8) == 134u8) && ((227u8 ^ 6u8) == 229u8))) && ((((0u8 ^ 171u8) == 171u8) && ((29u8 ^ 98u8) == 127u8)) && (((74u8 ^ 69u8) == 15u8) && ((192u8 ^ 255u8) == 63u8)))) && (((((37u8 ^ 9u8) == 44u8) && ((110u8 ^ 229u8) == 139u8)) && (((242u8 ^ 208u8) == 34u8) && ((201u8 ^ 188u8) == 117u8))) && ((((15u8 ^ 76u8) == 67u8) && ((3u8 ^ 173u8) == 174u8)) && (((144u8 ^ 42u8) == 186u8) && (((203u8 ^ 236u8) == 39u8) && ((17u8 ^ 41u8) == 56u8))))))
}

#[verifier::opaque]
spec fn bytes_p_1_5() -> bool {
    (bit_of(13u8, 4) == 0u8)
}

#[verifier::opaque]
spec fn bytes_p_1_6() -> bool {
    (bit_of(13u8, 5) == 0u8)
}

#[verifier::opaque]
spec fn bytes_p_1_7() -> bool {
    (bit_of(13u8, 6) == 0u8)
}

#[verifier::opaque]
spec fn bytes_p_1_8() -> bool {
    (bit_of(13u8, 7) == 0u8)
}

#[verifier::opaque]
spec fn bytes_p_1_9() -> bool {
    (bit_of(206u8, 0) == 0u8)
}

#[verifier::opaque]
spec fn bytes_p_1_10() -> bool {
    (((((bit_of(206u8, 1) == 1u8) && ((81u8 ^ 54u8) == 103u8)) && (((134u8 ^ 31u8) == 153u8) && ((229u8 ^ 156u8) == 121u8))) && ((((171u8 ^ 193u8) == 106u8) && ((127u8 ^ 170u8) == 213u8)) && (((15u8 ^ 88u8) == 87u8) && ((63u8 ^ 209u8) == 238u8)))) && (((((44u8 ^ 127u8) == 83u8) && ((139u8 ^ 66u8) == 201u8)) && (((34u8 ^ 57u8) == 27u8) && ((117u8 ^ 52u8) == 65u8))) && ((((67u8 ^ 47u8) == 108u8) && ((174u8 ^ 83u8) == 253u8)) && (((186u8 ^ 171u8) == 17u8) && (((39u8 ^ 10u8) == 45u8) && ((56u8 ^ 123u8) == 67u8))))))
}

#[verifier::opaque]
spec fn bytes_p_1_11() -> bool {
    (((((bit_of(206u8, 2) == 1u8) && ((103u8 ^ 108u8) == 11u8)) && (((153u8 ^ 62u8) == 167u8) && ((121u8 ^ 56u8) == 65u8))) && ((((106u8 ^ 131u8) == 233u8) && ((213u8 ^ 85u8) == 128u8)) && (((87u8 ^ 177u8) == 230u8) && ((238u8 ^ 162u8) == 76u8)))) && (((((83u8 ^ 255u8) == 172u8) && ((201u8 ^ 132u8) == 77u8)) && (((27u8 ^ 114u8) == 105u8) && ((65u8 ^ 104u8) == 41u8))) && ((((108u8 ^ 94u8) == 50u8) && ((253u8 ^ 166u8) == 91u8)) && (((17u8 ^ 86u8) == 71u8) && (((45u8 ^ 21u8) == 56u8) && ((67u8 ^ 246u8) == 181u8))))))
}

#[verifier::opaque]
spec fn bytes_p_1_12() -> bool {
    (((((bit_of(206u8, 3) == 1u8) && ((11u8 ^ 95u8) == 84u8)) && (((167u8 ^ 124u8) == 219u8) && ((65u8 ^ 112u8) == 49u8))) && ((((233u8 ^ 6u8) == 239u8) && ((128u8 ^ 171u8) == 43u8)) && (((230u8 ^ 98u8) == 132u8) && ((76u8 ^ 69u8) == 9u8)))) && (((((172u8 ^ 255u8) == 83u8) && ((77u8 ^ 9u8) == 68u8)) && (((105u8 ^ 229u8) == 140u8) && ((41u8 ^ 208u8) == 249u8))) && ((((50u8 ^ 188u8) == 142u8) && ((91u8 ^ 76u8) == 23u8)) && (((71u8 ^ 173u8) == 234u8) && (((56u8 ^ 42u8) == 18u8) && ((181u8 ^ 236u8) == 89u8))))))
}

#[verifier::opaque]
spec fn bytes_p_1_13() -> bool {
    (bit_of(206u8, 4) == 0u8)
}

#[verifier::opaque]
spec fn bytes_p_1_14() -> bool {
    (bit_of(206u8, 5) == 0u8)
}

#[verifier::opaque]
spec fn bytes_p_1_15() -> bool {
    (((((bit_of(206u8, 6) == 1u8) && ((84u8 ^ 109u8) == 57u8)) && (((219u8 ^ 225u8) == 58u8) && ((49u8 ^ 131u8) == 178u8))) && ((((239u8 ^ 51u8) == 220u8) && ((43u8 ^ 88u8) == 115u8)) && (((132u8 ^ 21u8) == 145u8) && ((9u8 ^ 43u8) == 34u8)))) && (((((83u8 ^ 250u8) == 169u8) && ((68u8 ^ 79u8) == 11u8)) && (((140u8 ^ 40u8) == 164u8) && ((249u8 ^ 135u8) == 126u8))) && ((((142u8 ^ 230u8) == 104u8) && ((23u8 ^ 101u8) == 114u8)) && (((234u8 ^ 106u8) == 128u8) && (((18u8 ^ 85u8) == 71u8) && ((89u8 ^ 97u8) == 56u8))))))
}

#[verifier::opaque]
spec fn bytes_p_1_16() -> bool {
    (((((bit_of(206u8, 7) == 1u8) && ((57u8 ^ 218u8) == 227u8)) && (((58u8 ^ 194u8) == 248u8) && ((178u8 ^ 7u8) == 181u8))) && ((((220u8 ^ 103u8) == 187u8) && ((115u8 ^ 176u8) == 195u8)) && (((145u8 ^ 42u8) == 187u8) && ((34u8 ^ 86u8) == 116u8)))) && (((((169u8 ^ 244u8) == 93u8) && ((11u8 ^ 159u8) == 148u8)) && (((164u8 ^ 80u8) == 244u8) && ((126u8 ^ 14u8) == 112u8))) && ((((104u8 ^ 205u8) == 165u8) && ((114u8 ^ 203u8) == 185u8)) && (((128u8 ^ 212u8) == 84u8) && (((71u8 ^ 170u8) == 237u8) && ((56u8 ^ 194u8) == 250u8))))))
}

#[verifier::opaque]
spec fn bytes_p_1_17() -> bool {
    (bit_of(96u8, 0) == 0u8)
}

#[verifier::opaque]
spec fn bytes_p_1_18() -> bool {
    (bit_of(96u8, 1) == 0u8)
}

#[verifier::opaque]
spec fn bytes_p_1_19() -> bool {
    (bit_of(96u8, 2) == 0u8)
}

#[verifier::opaque]
spec fn bytes_p_1_20() -> bool {
    (bit_of(96u8, 3) == 0u8)
}

#[verifier::opaque]
spec fn bytes_p_1_21() -> bool {
    (bit_of(96u8, 4) == 0u8)
}

#[verifier::opaque]
spec fn bytes_p_1_22() -> bool {
    (((((bit_of(96u8, 5) == 1u8) && ((227u8 ^ 16u8) == 243u8)) && (((248u8 ^ 174u8) == 86u8) && ((181u8 ^ 240u8) == 69u8))) && ((((187u8 ^ 193u8) == 122u8) && ((195u8 ^ 25u8) == 218u8)) && (((187u8 ^ 172u8) == 23u8) && ((116u8 ^ 138u8) == 254u8)))) && (((((93u8 ^ 21u8) == 72u8) && ((148u8 ^ 253u8) == 105u8)) && (((244u8 ^ 39u8) == 211u8) && ((112u8 ^ 148u8) == 228u8))) && ((((165u8 ^ 67u8) == 230u8) && ((185u8 ^ 243u8) == 74u8)) && (((84u8 ^ 50u8) == 102u8) && (((237u8 ^ 181u8) == 88u8) && ((250u8 ^ 170u8) == 80u8))))))
}

#[verifier::opaque]
spec fn bytes_p_1_23() -> bool {
    (((((bit_of(96u8, 6) == 1u8) && ((243u8 ^ 167u8) == 84u8)) && (((86u8 ^ 92u8) == 10u8) && ((69u8 ^ 225u8) == 164u8))) && ((((122u8 ^ 131u8) == 249u8) && ((218u8 ^ 51u8) == 233u8)) && (((23u8 ^ 88u8) == 79u8) && ((254u8 ^ 21u8) == 235u8)))) && (((((72u8 ^ 43u8) == 99u8) && ((105u8 ^ 250u8) == 147u8)) && (((211u8 ^ 79u8) == 156u8) && ((228u8 ^ 40u8) == 204u8))) && ((((230u8 ^ 135u8) == 97u8) && ((74u8 ^ 230u8) == 172u8)) && (((102u8 ^ 101u8) == 3u8) && (((88u8 ^ 106u8) == 50u8) && ((80u8 ^ 85u8) == 5u8))))))
}

#[verifier::opaque]
spec fn bytes_p_1_24() -> bool {
    (bit_of(96u8, 7) == 0u8)
}

#[verifier::opaque]
spec fn bytes_p_1_25() -> bool {
    (((((bit_of(85u8, 0) == 1u8) && ((84u8 ^ 27u8) == 79u8)) && (((10u8 ^ 114u8) == 120u8) && ((164u8 ^ 133u8) == 33u8))) && ((((249u8 ^ 15u8) == 246u8) && ((233u8 ^ 206u8) == 39u8)) && (((79u8 ^ 96u8) == 47u8) && ((235u8 ^ 85u8) == 190u8)))) && (((((99u8 ^ 172u8) == 207u8) && ((147u8 ^ 232u8) == 123u8)) && (((156u8 ^ 63u8) == 163u8) && ((204u8 ^ 161u8) == 109u8))) && ((((97u8 ^ 28u8) == 125u8) && ((172u8 ^ 154u8) == 54u8)) && (((3u8 ^ 151u8) == 148u8) && (((50u8 ^ 169u8) == 155u8) && ((5u8 ^ 85u8) == 80u8))))))
}

#[verifier::opaque]
spec fn bytes_p_1_26() -> bool {
    (bit_of(85u8, 1) == 0u8)
}

#[verifier::opaque]
spec fn bytes_p_1_27() -> bool {
    (((((bit_of(85u8, 2) == 1u8) && ((79u8 ^ 235u8) == 164u8)) && (((120u8 ^ 200u8) == 176u8) && ((33u8 ^ 21u8) == 52u8))) && ((((246u8 ^ 62u8) == 200u8) && ((39u8 ^ 56u8) == 31u8)) && (((47u8 ^ 131u8) == 172u8) && ((190u8 ^ 85u8) == 235u8)))) && (((((207u8 ^ 177u8) == 126u8) && ((123u8 ^ 162u8) == 217u8)) && (((163u8 ^ 255u8) == 92u8) && ((109u8 ^ 132u8) == 233u8))) && ((((125u8 ^ 114u8) == 15u8) && ((54u8 ^ 104u8) == 94u8)) && (((148u8 ^ 94u8) == 202u8) && (((155u8 ^ 166u8) == 61u8) && ((80u8 ^ 86u8) == 6u8))))))
}

#[verifier::opaque]
spec fn bytes_p_1_28() -> bool {
    (bit_of(85u8, 3) == 0u8)
}

#[verifier::opaque]
spec fn bytes_p_1_29() -> bool {
    (((((bit_of(85u8, 4) == 1u8) && ((164u8 ^ 43u8) == 143u8)) && (((176u8 ^ 35u8) == 147u8) && ((52u8 ^ 87u8) == 99u8))) && ((((200u8 ^ 248u8) == 48u8) && ((31u8 ^ 224u8) == 255u8)) && (((172u8 ^ 12u8) == 160u8) && ((235u8 ^ 86u8) == 189u8)))) && (((((126u8 ^ 197u8) == 187u8) && ((217u8 ^ 138u8) == 83u8)) && (((92u8 ^ 254u8) == 162u8) && ((233u8 ^ 19u8) == 250u8))) && ((((15u8 ^ 202u8) == 197u8) && ((94u8 ^ 161u8) == 255u8)) && (((202u8 ^ 121u8) == 179u8) && (((61u8 ^ 153u8) == 164u8) && ((6u8 ^ 90u8) == 92u8))))))
}

#[verifier::opaque]
spec fn bytes_p_1_30() -> bool {
    (bit_of(85u8, 5) == 0u8)
}

#[verifier::opaque]
spec fn bytes_p_1_31() -> bool {
    (((((bit_of(85u8, 6) == 1u8) && ((143u8 ^ 43u8) == 164u8)) && (((147u8 ^ 140u8) == 31u8) && ((99u8 ^ 92u8) == 63u8))) && ((((48u8 ^ 225u8) == 209u8) && ((255u8 ^ 131u8) == 124u8)) && (((160u8 ^ 51u8) == 147u8) && ((189u8 ^ 88u8) == 229u8)))) && (((((187u8 ^ 21u8) == 174u8) && ((83u8 ^ 43u8) == 120u8)) && (((162u8 ^ 250u8) == 88u8) && ((250u8 ^ 79u8) == 181u8))) && ((((197u8 ^ 40u8) == 237u8) && ((255u8 ^ 135u8) == 120u8)) && (((179u8 ^ 230u8) == 85u8) && (((164u8 ^ 101u8) == 193u8) && ((92u8 ^ 106u8) == 54u8))))))
}

#[verifier::opaque]
spec fn bytes_p_1_32() -> bool {
    (bit_of(85u8, 7) == 0u8)
}

#[verifier::opaque]
spec fn bytes_p_1_33() -> bool {
    (bit_of(172u8, 0) == 0u8)
}

#[verifier::opaque]
spec fn bytes_p_1_34() -> bool {
    (bit_of(172u8, 1) == 0u8)
}

#[verifier::opaque]
spec fn bytes_p_1_35() -> bool {
    (((((bit_of(172u8, 2) == 1u8) && ((164u8 ^ 162u8) == 6u8)) && (((31u8 ^ 193u8) == 222u8) && ((63u8 ^ 200u8) == 247u8))) && ((((209u8 ^ 21u8) == 196u8) && ((124u8 ^ 62u8) == 66u8)) && (((147u8 ^ 56u8) == 171u8) && ((229u8 ^ 131u8) == 102u8)))) && (((((174u8 ^ 85u8) == 251u8) && ((120u8 ^ 177u8) == 201u8)) && (((88u8 ^ 162u8) == 250u8) && ((181u8 ^ 255u8) == 74u8))) && ((((237u8 ^ 132u8) == 105u8) && ((120u8 ^ 114u8) == 10u8)) && (((85u8 ^ 104u8) == 61u8) && (((193u8 ^ 94u8) == 159u8) && ((54u8 ^ 166u8) == 144u8))))))
}

#[verifier::opaque]
spec fn bytes_p_1_36() -> bool {
    (((((bit_of(172u8, 3) == 1u8) && ((6u8 ^ 195u8) == 197u8)) && (((222u8 ^ 131u8) == 93u8) && ((247u8 ^ 145u8) == 102u8))) && ((((196u8 ^ 43u8) == 239u8) && ((66u8 ^ 124u8) == 62u8)) && (((171u8 ^ 112u8) == 219u8) && ((102u8 ^ 6u8) == 96u8)))) && (((((251u8 ^ 171u8) == 80u8) && ((201u8 ^ 98u8) == 171u8)) && (((250u8 ^ 69u8) == 191u8) && ((74u8 ^ 255u8) == 181u8))) && ((((105u8 ^ 9u8) == 96u8) && ((10u8 ^ 229u8) == 239u8)) && (((61u8 ^ 208u8) == 237u8) && (((159u8 ^ 188u8) == 35u8) && ((144u8 ^ 76u8) == 220u8))))))
}

#[verifier::opaque]
spec fn bytes_p_1_37() -> bool {
    (bit_of(172u8, 4) == 0u8)
}

#[verifier::opaque]
spec fn bytes_p_1_38() -> bool {
    (((((bit_of(172u8, 5) == 1u8) && ((197u8 ^ 139u8) == 78u8)) && (((93u8 ^ 15u8) == 82u8) && ((102u8 ^ 70u8) == 32u8))) && ((((239u8 ^ 174u8) == 65u8) && ((62u8 ^ 240u8) == 206u8)) && (((219u8 ^ 193u8) == 26u8) && ((96u8 ^ 25u8) == 121u8)))) && (((((80u8 ^ 172u8) == 252u8) && ((171u8 ^ 138u8) == 33u8)) && (((191u8 ^ 21u8) == 170u8) && ((181u8 ^ 253u8) == 72u8))) && ((((96u8 ^ 39u8) == 71u8) && ((239u8 ^ 148u8) == 123u8)) && (((237u8 ^ 67u8) == 174u8) && (((35u8 ^ 243u8) == 208u8) && ((220u8 ^ 50u8) == 238u8))))))
}

#[verifier::opaque]
spec fn bytes_p_1_39() -> bool {
    (bit_of(172u8, 6) == 0u8)
}

#[verifier::opaque]
spec fn bytes_p_1_40() -> bool {
    (((((bit_of(172u8, 7) == 1u8) && ((78u8 ^ 44u8) == 98u8)) && (((82u8 ^ 62u8) == 108u8) && ((32u8 ^ 24u8) == 56u8))) && ((((65u8 ^ 185u8) == 248u8) && ((206u8 ^ 194u8) == 12u8)) && (((26u8 ^ 7u8) == 29u8) && ((121u8 ^ 103u8) == 30u8)))) && (((((252u8 ^ 176u8) == 76u8) && ((33u8 ^ 42u8) == 11u8)) && (((170u8 ^ 86u8) == 252u8) && ((72u8 ^ 244u8) == 188u8))) && ((((71u8 ^ 159u8) == 216u8) && ((123u8 ^ 80u8) == 43u8)) && (((174u8 ^ 14u8) == 160u8) && (((208u8 ^ 205u8) == 29u8) && ((238u8 ^ 203u8) == 37u8))))))
}

#[verifier::opaque]
spec fn bytes_p_1_41() -> bool {
    (bit_of(232u8, 0) == 0u8)
}

#[verifier::opaque]
spec fn bytes_p_1_42() -> bool {
    (bit_of(232u8, 1) == 0u8)
}

#[verifier::opaque]
spec fn bytes_p_1_43() -> bool {
    (bit_of(232u8, 2) == 0u8)
}

#[verifier::opaque]
spec fn bytes_p_1_44() -> bool {
    (((((bit_of(232u8, 3) == 1u8) && ((98u8 ^ 228u8) == 134u8)) && (((108u8 ^ 228u8) == 136u8) && ((56u8 ^ 131u8) == 187u8))) && ((((248u8 ^ 145u8) == 105u8) && ((12u8 ^ 43u8) == 39u8)) && (((29u8 ^ 124u8) == 97u8) && ((30u8 ^ 112u8) == 110u8)))) && (((((76u8 ^ 6u8) == 74u8) && ((11u8 ^ 171u8) == 160u8)) && (((252u8 ^ 98u8) == 158u8) && ((188u8 ^ 69u8) == 249u8))) && ((((216u8 ^ 255u8) == 39u8) && ((43u8 ^ 9u8) == 34u8)) && (((160u8 ^ 229u8) == 69u8) && (((29u8 ^ 208u8) == 205u8) && ((37u8 ^ 188u8) == 153u8))))))
}

#[verifier::opaque]
spec fn bytes_p_1_45() -> bool {
    (bit_of(232u8, 4) == 0u8)
}

#[verifier::opaque]
spec fn bytes_p_1_46() -> bool {
    (((((bit_of(232u8, 5) == 1u8) && ((134u8 ^ 158u8) == 24u8)) && (((136u8 ^ 146u8) == 26u8) && ((187u8 ^ 15u8) == 180u8))) && ((((105u8 ^ 70u8) == 47u8) && ((39u8 ^ 174u8) == 137u8)) && (((97u8 ^ 240u8) == 145u8) && ((110u8 ^ 193u8) == 175u8)))) && (((((74u8 ^ 25u8) == 83u8) && ((160u8 ^ 172u8) == 12u8)) && (((158u8 ^ 138u8) == 20u8) && ((249u8 ^ 21u8) == 236u8))) && ((((39u8 ^ 253u8) == 218u8) && ((34u8 ^ 39u8) == 5u8)) && (((69u8 ^ 148u8) == 209u8) && (((205u8 ^ 67u8) == 142u8) && ((153u8 ^ 243u8) == 106u8))))))
}

#[verifier::opaque]
spec fn bytes_p_1_47() -> bool {
    (((((bit_of(232u8, 6) == 1u8) && ((24u8 ^ 187u8) == 163u8)) && (((26u8 ^ 37u8) == 63u8) && ((180u8 ^ 31u8) == 171u8))) && ((((47u8 ^ 140u8) == 163u8) && ((137u8 ^ 92u8) == 213u8)) && (((145u8 ^ 225u8) == 112u8) && ((175u8 ^ 131u8) == 44u8)))) && (((((83u8 ^ 51u8) == 96u8) && ((12u8 ^ 88u8) == 84u8)) && (((20u8 ^ 21u8) == 1u8) && ((236u8 ^ 43u8) == 199u8))) && ((((218u8 ^ 250u8) == 32u8) && ((5u8 ^ 79u8) == 74u8)) && (((209u8 ^ 40u8) == 249u8) && (((142u8 ^ 135u8) == 9u8) && ((106u8 ^ 230u8) == 140u8))))))
}

#[verifier::opaque]
spec fn bytes_p_1_48() -> bool {
    (((((bit_of(232u8, 7) == 1u8) && ((163u8 ^ 241u8) == 82u8)) && (((63u8 ^ 75u8) == 116u8) && ((171u8 ^ 62u8) == 149u8))) && ((((163u8 ^ 24u8) == 187u8) && ((213u8 ^ 185u8) == 108u8)) && (((112u8 ^ 194u8) == 178u8) && ((44u8 ^ 7u8) == 43u8)))) && (((((96u8 ^ 103u8) == 7u8) && ((84u8 ^ 176u8) == 228u8)) && (((1u8 ^ 42u8) == 43u8) && ((199u8 ^ 86u8) == 145u8))) && ((((32u8 ^ 244u8) == 212u8) && ((74u8 ^ 159u8) == 213u8)) && (((249u8 ^ 80u8) == 169u8) && (((9u8 ^ 14u8) == 7u8) && ((140u8 ^ 205u8) == 65u8))))))
}

#[verifier::opaque]
spec fn bytes_p_1_49() -> bool {
    (((((bit_of(63u8, 0) == 1u8) && ((82u8 ^ 101u8) == 55u8)) && (((116u8 ^ 151u8) == 227u8) && ((149u8 ^ 124u8) == 233u8))) && ((((187u8 ^ 48u8) == 139u8) && ((108u8 ^ 114u8) == 30u8)) && (((178u8 ^ 133u8) == 55u8) && ((43u8 ^ 15u8) == 36u8)))) && (((((7u8 ^ 206u8) == 201u8) && ((228u8 ^ 96u8) == 132u8)) && (((43u8 ^ 85u8) == 126u8) && ((145u8 ^ 172u8) == 61u8))) && ((((212u8 ^ 232u8) == 60u8) && ((213u8 ^ 63u8) == 234u8)) && (((169u8 ^ 161u8) == 8u8) && (((7u8 ^ 28u8) == 27u8) && ((65u8 ^ 154u8) == 219u8))))))
}

#[verifier::opaque]
spec fn bytes_p_1_50() -> bool {
    (((((bit_of(63u8, 1) == 1u8) && ((55u8 ^ 77u8) == 122u8)) && (((227u8 ^ 46u8) == 205u8) && ((233u8 ^ 249u8) == 16u8))) && ((((139u8 ^ 96u8) == 235u8) && ((30u8 ^ 228u8) == 250u8)) && (((55u8 ^ 10u8) == 61u8) && ((36u8 ^ 31u8) == 59u8)))) && (((((201u8 ^ 156u8) == 85u8) && ((132u8 ^ 193u8) == 69u8)) && (((126u8 ^ 170u8) == 212u8) && ((61u8 ^ 88u8) == 101u8))) && ((((60u8 ^ 209u8) == 237u8) && ((234u8 ^ 127u8) == 149u8)) && (((8u8 ^ 66u8) == 74u8) && (((27u8 ^ 57u8) == 34u8) && ((219u8 ^ 52u8) == 239u8))))))
}

#[verifier::opaque]
spec fn bytes_p_1_51() -> bool {
    (((((bit_of(63u8, 2) == 1u8) && ((122u8 ^ 154u8) == 224u8)) && (((205u8 ^ 92u8) == 145u8) && ((16u8 ^ 242u8) == 226u8))) && ((((235u8 ^ 193u8) == 42u8) && ((250u8 ^ 200u8) == 50u8)) && (((61u8 ^ 21u8) == 40u8) && ((59u8 ^ 62u8) == 5u8)))) && (((((85u8 ^ 56u8) == 109u8) && ((69u8 ^ 131u8) == 198u8)) && (((212u8 ^ 85u8) == 129u8) && ((101u8 ^ 177u8) == 212u8))) && ((((237u8 ^ 162u8) == 79u8) && ((149u8 ^ 255u8) == 106u8)) && (((74u8 ^ 132u8) == 206u8) && (((34u8 ^ 114u8) == 80u8) && ((239u8 ^ 104u8) == 135u8))))))
}

#[verifier::opaque]
spec fn bytes_p_1_52() -> bool {
    (((((bit_of(63u8, 3) == 1u8) && ((224u8 ^ 52u8) == 212u8)) && (((145u8 ^ 185u8) == 40u8) && ((226u8 ^ 228u8) == 6u8))) && ((((42u8 ^ 131u8) == 169u8) && ((50u8 ^ 145u8) == 163u8)) && (((40u8 ^ 43u8) == 3u8) && ((5u8 ^ 124u8) == 121u8)))) && (((((109u8 ^ 112u8) == 29u8) && ((198u8 ^ 6u8) == 192u8)) && (((129u8 ^ 171u8) == 42u8) && ((212u8 ^ 98u8) == 182u8))) && ((((79u8 ^ 69u8) == 10u8) && ((106u8 ^ 255u8) == 149u8)) && (((206u8 ^ 9u8) == 199u8) && (((80u8 ^ 229u8) == 181u8) && ((135u8 ^ 208u8) == 87u8))))))
}

#[verifier::opaque]
spec fn bytes_p_1_53() -> bool {
    (((((bit_of(63u8, 4) == 1u8) && ((212u8 ^ 239u8) == 59u8)) && (((40u8 ^ 114u8) == 90u8) && ((6u8 ^ 201u8) == 207u8))) && ((((169u8 ^ 7u8) == 174u8) && ((163u8 ^ 35u8) == 128u8)) && (((3u8 ^ 87u8) == 84u8) && ((121u8 ^ 248u8) == 129u8)))) && (((((29u8 ^ 224u8) == 253u8) && ((192u8 ^ 12u8) == 204u8)) && (((42u8 ^ 86u8) == 124u8) && ((182u8 ^ 197u8) == 115u8))) && ((((10u8 ^ 138u8) == 128u8) && ((149u8 ^ 254u8) == 107u8)) && (((199u8 ^ 19u8) == 212u8) && (((181u8 ^ 202u8) == 127u8) && ((87u8 ^ 161u8) == 246u8))))))
}

#[verifier::opaque]
spec fn bytes_p_1_54() -> bool {
    (((((bit_of(63u8, 5) == 1u8) && ((59u8 ^ 89u8) == 98u8)) && (((90u8 ^ 229u8) == 191u8) && ((207u8 ^ 146u8) == 93u8))) && ((((174u8 ^ 15u8) == 161u8) && ((128u8 ^ 70u8) == 198u8)) && (((84u8 ^ 174u8) == 250u8) && ((129u8 ^ 240u8) == 113u8)))) && (((((253u8 ^ 193u8) == 60u8) && ((204u8 ^ 25u8) == 213u8)) && (((124u8 ^ 172u8) == 208u8) && ((115u8 ^ 138u8) == 249u8))) && ((((128u8 ^ 21u8) == 149u8) && ((107u8 ^ 253u8) == 150u8)) && (((212u8 ^ 39u8) == 243u8) && (((127u8 ^ 148u8) == 235u8) && ((246u8 ^ 67u8) == 181u8))))))
}

#[verifier::opaque]
spec fn bytes_p_1_55() -> bool {
    (bit_of(63u8, 6) == 0u8)
}

#[verifier::opaque]
spec fn bytes_p_1_56() -> bool {
    (bit_of(63u8, 7) == 0u8)
}

#[verifier::opaque]
spec fn bytes_p_1_57() -> bool {
    (((((bit_of(161u8, 0) == 1u8) && ((98u8 ^ 198u8) == 164u8)) && (((191u8 ^ 43u8) == 148u8) && ((93u8 ^ 151u8) == 202u8))) && ((((161u8 ^ 124u8) == 221u8) && ((198u8 ^ 48u8) == 246u8)) && (((250u8 ^ 114u8) == 136u8) && ((113u8 ^ 133u8) == 244u8)))) && (((((60u8 ^ 15u8) == 51u8) && ((213u8 ^ 206u8) == 27u8)) && (((208u8 ^ 96u8) == 176u8) && ((249u8 ^ 85u8) == 172u8))) && ((((149u8 ^ 172u8) == 57u8) && ((150u8 ^ 232u8) == 126u8)) && (((243u8 ^ 63u8) == 204u8) && (((235u8 ^ 161u8) == 74u8) && ((181u8 ^ 28u8) == 169u8))))))
}

#[verifier::opaque]
spec fn bytes_p_1_58() -> bool {
    (bit_of(161u8, 1) == 0u8)
}

#[verifier::opaque]
spec fn bytes_p_1_59() -> bool {
    (bit_of(161u8, 2) == 0u8)
}

#[verifier::opaque]
spec fn bytes_p_1_60() -> bool {
    (bit_of(161u8, 3) == 0u8)
}

#[verifier::opaque]
spec fn bytes_p_1_61() -> bool {
    (bit_of(161u8, 4) == 0u8)
}

#[verifier::opaque]
spec fn bytes_p_1_62() -> bool {
    (((((bit_of(161u8, 5) == 1u8) && ((164u8 ^ 73u8) == 237u8)) && (((148u8 ^ 121u8) == 237u8) && ((202u8 ^ 229u8) == 47u8))) && ((((221u8 ^ 146u8) == 79u8) && ((246u8 ^ 15u8) == 249u8)) && (((136u8 ^ 70u8) == 206u8) && ((244u8 ^ 174u8) == 90u8)))) && (((((51u8 ^ 240u8) == 195u8) && ((27u8 ^ 193u8) == 218u8)) && (((176u8 ^ 25u8) == 169u8) && ((172u8 ^ 172u8) == 0u8))) && ((((57u8 ^ 138u8) == 179u8) && ((126u8 ^ 21u8) == 107u8)) && (((204u8 ^ 253u8) == 49u8) && (((74u8 ^ 39u8) == 109u8) && ((169u8 ^ 148u8) == 61u8))))))
}

#[verifier::opaque]
spec fn bytes_p_1_63() -> bool {
    (bit_of(161u8, 6) == 0u8)
}

#[verifier::opaque]
spec fn bytes_p_1_64() -> bool {
    (((((bit_of(161u8, 7) == 1u8) && ((237u8 ^ 42u8) == 199u8)) && (((237u8 ^ 228u8) == 9u8) && ((47u8 ^ 149u8) == 186u8))) && ((((79u8 ^ 75u8) == 4u8) && ((249u8 ^ 62u8) == 199u8)) && (((206u8 ^ 24u8) == 214u8) && ((90u8 ^ 185u8) == 227u8)))) && (((((195u8 ^ 194u8) == 1u8) && ((218u8 ^ 7u8) == 221u8)) && (((169u8 ^ 103u8) == 206u8) && ((0u8 ^ 176u8) == 176u8))) && ((((179u8 ^ 42u8) == 153u8) && ((107u8 ^ 86u8) == 61u8)) && (((49u8 ^ 244u8) == 197u8) && (((109u8 ^ 159u8) == 242u8) && ((61u8 ^ 80u8) == 109u8))))))
}

#[verifier::opaque]
spec fn bytes_p_1_65() -> bool {
    (bit_of(28u8, 0) == 0u8)
}

#[verifier::opaque]
spec fn bytes_p_1_66() -> bool {
    (bit_of(28u8, 1) == 0u8)
}

#[verifier::opaque]
spec fn bytes_p_1_67() -> bool {
    (((((bit_of(28u8, 2) == 1u8) && ((199u8 ^ 94u8) == 153u8)) && (((9u8 ^ 32u8) == 41u8) && ((186u8 ^ 175u8) == 21u8))) && ((((4u8 ^ 92u8) == 88u8) && ((199u8 ^ 242u8) == 53u8)) && (((214u8 ^ 193u8) == 23u8) && ((227u8 ^ 200u8) == 43u8)))) && (((((1u8 ^ 21u8) == 20u8) && ((221u8 ^ 62u8) == 227u8)) && (((206u8 ^ 56u8) == 246u8) && ((176u8 ^ 131u8) == 51u8))) && ((((153u8 ^ 85u8) == 204u8) && ((61u8 ^ 177u8) == 140u8)) && (((197u8 ^ 162u8) == 103u8) && (((242u8 ^ 255u8) == 13u8) && ((109u8 ^ 132u8) == 233u8))))))
}

#[verifier::opaque]
spec fn bytes_p_1_68() -> bool {
    (((((bit_of(28u8, 3) == 1u8) && ((153u8 ^ 59u8) == 162u8)) && (((41u8 ^ 64u8) == 105u8) && ((21u8 ^ 94u8) == 75u8))) && ((((88u8 ^ 185u8) == 225u8) && ((53u8 ^ 228u8) == 209u8)) && (((23u8 ^ 131u8) == 148u8) && ((43u8 ^ 145u8) == 186u8)))) && (((((20u8 ^ 43u8) == 63u8) && ((227u8 ^ 124u8) == 159u8)) && (((246u8 ^ 112u8) == 134u8) && ((51u8 ^ 6u8) == 53u8))) && ((((204u8 ^ 171u8) == 103u8) && ((140u8 ^ 98u8) == 238u8)) && (((103u8 ^ 69u8) == 34u8) && (((13u8 ^ 255u8) == 242u8) && ((233u8 ^ 9u8) == 224u8))))))
}

#[verifier::opaque]
spec fn bytes_p_1_69() -> bool {
    (((((bit_of(28u8, 4) == 1u8) && ((162u8 ^ 118u8) == 212u8)) && (((105u8 ^ 128u8) == 233u8) && ((75u8 ^ 188u8) == 247u8))) && ((((225u8 ^ 114u8) == 147u8) && ((209u8 ^ 201u8) == 24u8)) && (((148u8 ^ 7u8) == 147u8) && ((186u8 ^ 35u8) == 153u8)))) && (((((63u8 ^ 87u8) == 104u8) && ((159u8 ^ 248u8) == 103u8)) && (((134u8 ^ 224u8) == 102u8) && ((53u8 ^ 12u8) == 57u8))) && ((((103u8 ^ 86u8) == 49u8) && ((238u8 ^ 197u8) == 43u8)) && (((34u8 ^ 138u8) == 168u8) && (((242u8 ^ 254u8) == 12u8) && ((224u8 ^ 19u8) == 243u8))))))
}

#[verifier::opaque]
spec fn bytes_p_1_70() -> bool {
    (bit_of(28u8, 5) == 0u8)
}

#[verifier::opaque]
spec fn bytes_p_1_71() -> bool {
    (bit_of(28u8, 6) == 0u8)
}

#[verifier::opaque]
spec fn bytes_p_1_72() -> bool {
    (bit_of(28u8, 7) == 0u8)
}

#[verifier::opaque]
spec fn bytes_p_1_73() -> bool {
    (bit_of(154u8, 0) == 0u8)
}

#[verifier::opaque]
spec fn bytes_p_1_74() -> bool {
    (((((bit_of(154u8, 1) == 1u8) && ((212u8 ^ 206u8) == 26u8)) && (((233u8 ^ 15u8) == 230u8) && ((247u8 ^ 144u8) == 103u8))) && ((((147u8 ^ 87u8) == 196u8) && ((24u8 ^ 46u8) == 54u8)) && (((147u8 ^ 249u8) == 106u8) && ((153u8 ^ 96u8) == 249u8)))) && (((((104u8 ^ 228u8) == 140u8) && ((103u8 ^ 10u8) == 109u8)) && (((102u8 ^ 31u8) == 121u8) && ((57u8 ^ 156u8) == 165u8))) && ((((49u8 ^ 193u8) == 240u8) && ((43u8 ^ 170u8) == 129u8)) && (((168u8 ^ 88u8) == 240u8) && (((12u8 ^ 209u8) == 221u8) && ((243u8 ^ 127u8) == 140u8))))))
}

#[verifier::opaque]
spec fn bytes_p_1_75() -> bool {
    (bit_of(154u8, 2) == 0u8)
}

#[verifier::opaque]
spec fn bytes_p_1_76() -> bool {
    (((((bit_of(154u8, 3) == 1u8) && ((26u8 ^ 191u8) == 165u8)) && (((230u8 ^ 63u8) == 217u8) && ((103u8 ^ 64u8) == 39u8))) && ((((196u8 ^ 94u8) == 154u8) && ((54u8 ^ 185u8) == 143u8)) && (((106u8 ^ 228u8) == 142u8) && ((249u8 ^ 131u8) == 122u8)))) && (((((140u8 ^ 145u8) == 29u8) && ((109u8 ^ 43u8) == 70u8)) && (((121u8 ^ 124u8) == 5u8) && ((165u8 ^ 112u8) == 213u8))) && ((((240u8 ^ 6u8) == 246u8) && ((129u8 ^ 171u8) == 42u8)) && (((240u8 ^ 98u8) == 146u8) && (((221u8 ^ 69u8) == 152u8) && ((140u8 ^ 255u8) == 115u8))))))
}

#[verifier::opaque]
spec fn bytes_p_1_77() -> bool {
    (((((bit_of(154u8, 4) == 1u8) && ((165u8 ^ 249u8) == 92u8)) && (((217u8 ^ 127u8) == 166u8) && ((39u8 ^ 128u8) == 167u8))) && ((((154u8 ^ 188u8) == 38u8) && ((143u8 ^ 114u8) == 253u8)) && (((142u8 ^ 201u8) == 71u8) && ((122u8 ^ 7u8) == 125u8)))) && (((((29u8 ^ 35u8) == 62u8) && ((70u8 ^ 87u8) == 17u8)) && (((5u8 ^ 248u8) == 253u8) && ((213u8 ^ 224u8) == 53u8))) && ((((246u8 ^ 12u8) == 250u8) && ((42u8 ^ 86u8) == 124u8)) && (((146u8 ^ 197u8) == 87u8) && (((152u8 ^ 138u8) == 18u8) && ((115u8 ^ 254u8) == 141u8))))))
}

#[verifier::opaque]
spec fn bytes_p_1_78() -> bool {
    (bit_of(154u8, 5) == 0u8)
}

#[verifier::opaque]
spec fn bytes_p_1_79() -> bool {
    (bit_of(154u8, 6) == 0u8)
}

#[verifier::opaque]
spec fn bytes_p_1_80() -> bool {
    (((((bit_of(154u8, 7) == 1u8) && ((92u8 ^ 93u8) == 1u8)) && (((166u8 ^ 252u8) == 90u8) && ((167u8 ^ 3u8) == 164u8))) && ((((38u8 ^ 228u8) == 194u8) && ((253u8 ^ 149u8) == 104u8)) && (((71u8 ^ 75u8) == 12u8) && ((125u8 ^ 62u8) == 67u8)))) && (((((62u8 ^ 24u8) == 38u8) && ((17u8 ^ 185u8) == 168u8)) && (((253u8 ^ 194u8) == 63u8) && ((53u8 ^ 7u8) == 50u8))) && ((((250u8 ^ 103u8) == 157u8) && ((124u8 ^ 176u8) == 204u8)) && (((87u8 ^ 42u8) == 125u8) && (((18u8 ^ 86u8) == 68u8) && ((141u8 ^ 244u8) == 121u8))))))
}

#[verifier::opaque]
spec fn bytes_p_1_81() -> bool {
    (((((bit_of(151u8, 0) == 1u8) && ((1u8 ^ 61u8) == 60u8)) && (((90u8 ^ 248u8) == 162u8) && ((164u8 ^ 7u8) == 163u8))) && ((((194u8 ^ 200u8) == 10u8) && ((104u8 ^ 43u8) == 67u8)) && (((12u8 ^ 151u8) == 155u8) && ((67u8 ^ 124u8) == 63u8)))) && (((((38u8 ^ 48u8) == 22u8) && ((168u8 ^ 114u8) == 218u8)) && (((63u8 ^ 133u8) == 186u8) && ((50u8 ^ 15u8) == 61u8))) && ((((157u8 ^ 206u8) == 83u8) && ((204u8 ^ 96u8) == 172u8)) && (((125u8 ^ 85u8) == 40u8) && (((68u8 ^ 172u8) == 232u8) && ((121u8 ^ 232u8) == 145u8))))))
}

#[verifier::opaque]
spec fn bytes_p_1_82() -> bool {
    (((((bit_of(151u8, 1) == 1u8) && ((60u8 ^ 253u8) == 193u8)) && (((162u8 ^ 240u8) == 82u8) && ((163u8 ^ 15u8) == 172u8))) && ((((10u8 ^ 144u8) == 154u8) && ((67u8 ^ 87u8) == 20u8)) && (((155u8 ^ 46u8) == 181u8) && ((63u8 ^ 249u8) == 198u8)))) && (((((22u8 ^ 96u8) == 118u8) && ((218u8 ^ 228u8) == 62u8)) && (((186u8 ^ 10u8) == 176u8) && ((61u8 ^ 31u8) == 34u8))) && ((((83u8 ^ 156u8) == 207u8) && ((172u8 ^ 193u8) == 109u8)) && (((40u8 ^ 170u8) == 130u8) && (((232u8 ^ 88u8) == 176u8) && ((145u8 ^ 209u8) == 64u8))))))
}

#[verifier::opaque]
spec fn bytes_p_1_83() -> bool {
    (((((bit_of(151u8, 2) == 1u8) && ((193u8 ^ 125u8) == 188u8)) && (((82u8 ^ 225u8) == 179u8) && ((172u8 ^ 31u8) == 179u8))) && ((((154u8 ^ 32u8) == 186u8) && ((20u8 ^ 175u8) == 187u8)) && (((181u8 ^ 92u8) == 233u8) && ((198u8 ^ 242u8) == 52u8)))) && (((((118u8 ^ 193u8) == 183u8) && ((62u8 ^ 200u8) == 246u8)) && (((176u8 ^ 21u8) == 165u8) && ((34u8 ^ 62u8) == 28u8))) && ((((207u8 ^ 56u8) == 247u8) && ((109u8 ^ 131u8) == 238u8)) && (((130u8 ^ 85u8) == 215u8) && (((176u8 ^ 177u8) == 1u8) && ((64u8 ^ 162u8) == 226u8))))))
}

#[verifier::opaque]
spec fn bytes_p_1_84() -> bool {
    (bit_of(151u8, 3) == 0u8)
}

#[verifier::opaque]
spec fn bytes_p_1_85() -> bool {
    (((((bit_of(151u8, 4) == 1u8) && ((188u8 ^ 250u8) == 70u8)) && (((179u8 ^ 132u8) == 55u8) && ((179u8 ^ 127u8) == 204u8))) && ((((186u8 ^ 128u8) == 58u8) && ((187u8 ^ 188u8) == 7u8)) && (((233u8 ^ 114u8) == 155u8) && ((52u8 ^ 201u8) == 253u8)))) && (((((183u8 ^ 7u8) == 176u8) && ((246u8 ^ 35u8) == 213u8)) && (((165u8 ^ 87u8) == 242u8) && ((28u8 ^ 248u8) == 228u8))) && ((((247u8 ^ 224u8) == 23u8) && ((238u8 ^ 12u8) == 226u8)) && (((215u8 ^ 86u8) == 129u8) && (((1u8 ^ 197u8) == 196u8) && ((226u8 ^ 138u8) == 104u8))))))
}

#[verifier::opaque]
spec fn bytes_p_1_86() -> bool {
    (bit_of(151u8, 5) == 0u8)
}

#[verifier::opaque]
spec fn bytes_p_1_87() -> bool {
    (bit_of(151u8, 6) == 0u8)
}

#[verifier::opaque]
spec fn bytes_p_1_88() -> bool {
    (((((bit_of(151u8, 7) == 1u8) && ((70u8 ^ 204u8) == 138u8)) && (((55u8 ^ 37u8) == 18u8) && ((204u8 ^ 252u8) == 48u8))) && ((((58u8 ^ 3u8) == 57u8) && ((7u8 ^ 228u8) == 227u8)) && (((155u8 ^ 149u8) == 14u8) && ((253u8 ^ 75u8) == 182u8)))) && (((((176u8 ^ 62u8) == 142u8) && ((213u8 ^ 24u8) == 205u8)) && (((242u8 ^ 185u8) == 75u8) && ((228u8 ^ 194u8) == 38u8))) && ((((23u8 ^ 7u8) == 16u8) && ((226u8 ^ 103u8) == 133u8)) && (((129u8 ^ 176u8) == 49u8) && (((196u8 ^ 42u8) == 238u8) && ((104u8 ^ 86u8) == 62u8))))))
}

#[verifier::opaque]
spec fn bytes_p_1_89() -> bool {
    (((((bit_of(169u8, 0) == 1u8) && ((138u8 ^ 152u8) == 18u8)) && (((18u8 ^ 75u8) == 89u8) && ((48u8 ^ 248u8) == 200u8))) && ((((57u8 ^ 7u8) == 62u8) && ((227u8 ^ 200u8) == 43u8)) && (((14u8 ^ 43u8) == 37u8) && ((182u8 ^ 151u8) == 33u8)))) && (((((142u8 ^ 124u8) == 242u8) && ((205u8 ^ 48u8) == 253u8)) && (((75u8 ^ 114u8) == 57u8) && ((38u8 ^ 133u8) == 163u8))) && ((((16u8 ^ 15u8) == 31u8) && ((133u8 ^ 206u8) == 75u8)) && (((49u8 ^ 96u8) == 81u8) && (((238u8 ^ 85u8) == 187u8) && ((62u8 ^ 172u8) == 146u8))))))
}

#[verifier::opaque]
spec fn bytes_p_1_90() -> bool {
    (bit_of(169u8, 1) == 0u8)
}

#[verifier::opaque]
spec fn bytes_p_1_91() -> bool {
    (bit_of(169u8, 2) == 0u8)
}

#[verifier::opaque]
spec fn bytes_p_1_92() -> bool {
    (((((bit_of(169u8, 3) == 1u8) && ((18u8 ^ 91u8) == 73u8)) && (((89u8 ^ 94u8) == 7u8) && ((200u8 ^ 194u8) == 10u8))) && ((((62u8 ^ 63u8) == 1u8) && ((43u8 ^ 64u8) == 107u8)) && (((37u8 ^ 94u8) == 123u8) && ((33u8 ^ 185u8) == 152u8)))) && (((((242u8 ^ 228u8) == 22u8) && ((253u8 ^ 131u8) == 126u8)) && (((57u8 ^ 145u8) == 168u8) && ((163u8 ^ 43u8) == 136u8))) && ((((31u8 ^ 124u8) == 99u8) && ((75u8 ^ 112u8) == 59u8)) && (((81u8 ^ 6u8) == 87u8) && (((187u8 ^ 171u8) == 16u8) && ((146u8 ^ 98u8) == 240u8))))))
}

#[verifier::opaque]
spec fn bytes_p_1_93() -> bool {
    (bit_of(169u8, 4) == 0u8)
}

#[verifier::opaque]
spec fn bytes_p_1_94() -> bool {
    (((((bit_of(169u8, 5) == 1u8) && ((73u8 ^ 235u8) == 162u8)) && (((7u8 ^ 121u8) == 126u8) && ((10u8 ^ 9u8) == 3u8))) && ((((1u8 ^ 255u8) == 254u8) && ((107u8 ^ 0u8) == 107u8)) && (((123u8 ^ 121u8) == 2u8) && ((152u8 ^ 229u8) == 125u8)))) && (((((22u8 ^ 146u8) == 132u8) && ((126u8 ^ 15u8) == 113u8)) && (((168u8 ^ 70u8) == 238u8) && ((136u8 ^ 174u8) == 38u8))) && ((((99u8 ^ 240u8) == 147u8) && ((59u8 ^ 193u8) == 250u8)) && (((87u8 ^ 25u8) == 78u8) && (((16u8 ^ 172u8) == 188u8) && ((240u8 ^ 138u8) == 122u8))))))
}

#[verifier::opaque]
spec fn bytes_p_1_95() -> bool {
    (bit_of(169u8, 6) == 0u8)
}

#[verifier::opaque]
spec fn bytes_p_1_96() -> bool {
    (((((bit_of(169u8, 7) == 1u8) && ((162u8 ^ 162u8) == 0u8)) && (((126u8 ^ 230u8) == 152u8) && ((3u8 ^ 37u8) == 38u8))) && ((((254u8 ^ 252u8) == 2u8) && ((107u8 ^ 3u8) == 104u8)) && (((2u8 ^ 228u8) == 230u8) && ((125u8 ^ 149u8) == 232u8)))) && (((((132u8 ^ 75u8) == 207u8) && ((113u8 ^ 62u8) == 79u8)) && (((238u8 ^ 24u8) == 246u8) && ((38u8 ^ 185u8) == 159u8))) && ((((147u8 ^ 194u8) == 81u8) && ((250u8 ^ 7u8) == 253u8)) && (((78u8 ^ 103u8) == 41u8) && (((188u8 ^ 176u8) == 12u8) && ((122u8 ^ 42u8) == 80u8))))))
}

#[verifier::opaque]
spec fn bytes_p_1_97() -> bool {
    (((((bit_of(85u8, 0) == 1u8) && ((0u8 ^ 68u8) == 68u8)) && (((152u8 ^ 205u8) == 85u8) && ((38u8 ^ 75u8) == 109u8))) && ((((2u8 ^ 248u8) == 250u8) && ((104u8 ^ 7u8) == 111u8)) && (((230u8 ^ 200u8) == 46u8) && ((232u8 ^ 43u8) == 195u8)))) && (((((207u8 ^ 151u8) == 88u8) && ((79u8 ^ 124u8) == 51u8)) && (((246u8 ^ 48u8) == 198u8) && ((159u8 ^ 114u8) == 237u8))) && ((((81u8 ^ 133u8) == 212u8) && ((253u8 ^ 15u8) == 242u8)) && (((41u8 ^ 206u8) == 231u8) && (((12u8 ^ 96u8) == 108u8) && ((80u8 ^ 85u8) == 5u8))))))
}

#[verifier::opaque]
spec fn bytes_p_1_98() -> bool {
    (bit_of(85u8, 1) == 0u8)
}

#[verifier::opaque]
spec fn bytes_p_1_99() -> bool {
    (((((bit_of(85u8, 2) == 1u8) && ((68u8 ^ 151u8) == 211u8)) && (((85u8 ^ 53u8) == 96u8) && ((109u8 ^ 47u8) == 66u8))) && ((((250u8 ^ 225u8) == 27u8) && ((111u8 ^ 31u8) == 112u8)) && (((46u8 ^ 32u8) == 14u8) && ((195u8 ^ 175u8) == 108u8)))) && (((((88u8 ^ 92u8) == 4u8) && ((51u8 ^ 242u8) == 193u8)) && (((198u8 ^ 193u8) == 7u8) && ((237u8 ^ 200u8) == 37u8))) && ((((212u8 ^ 21u8) == 193u8) && ((242u8 ^ 62u8) == 204u8)) && (((231u8 ^ 56u8) == 223u8) && (((108u8 ^ 131u8) == 239u8) && ((5u8 ^ 85u8) == 80u8))))))
}

#[verifier::opaque]
spec fn bytes_p_1_100() -> bool {
    (bit_of(85u8, 3) == 0u8)
}

#[verifier::opaque]
spec fn bytes_p_1_101() -> bool {
    (((((bit_of(85u8, 4) == 1u8) && ((211u8 ^ 219u8) == 8u8)) && (((96u8 ^ 214u8) == 182u8) && ((66u8 ^ 188u8) == 254u8))) && ((((27u8 ^ 132u8) == 159u8) && ((112u8 ^ 127u8) == 15u8)) && (((14u8 ^ 128u8) == 142u8) && ((108u8 ^ 188u8) == 208u8)))) && (((((4u8 ^ 114u8) == 118u8) && ((193u8 ^ 201u8) == 8u8)) && (((7u8 ^ 7u8) == 0u8) && ((37u8 ^ 35u8) == 6u8))) && ((((193u8 ^ 87u8) == 150u8) && ((204u8 ^ 248u8) == 52u8)) && (((223u8 ^ 224u8) == 63u8) && (((239u8 ^ 12u8) == 227u8) && ((80u8 ^ 86u8) == 6u8))))))
}

#[verifier::opaque]
spec fn bytes_p_1_102() -> bool {
    (bit_of(85u8, 5) == 0u8)
}

#[verifier::opaque]
spec fn bytes_p_1_103() -> bool {
    (((((bit_of(85u8, 6) == 1u8) && ((8u8 ^ 235u8) == 227u8)) && (((182u8 ^ 91u8) == 237u8) && ((254u8 ^ 243u8) == 13u8))) && ((((159u8 ^ 18u8) == 141u8) && ((15u8 ^ 254u8) == 241u8)) && (((142u8 ^ 1u8) == 143u8) && ((208u8 ^ 242u8) == 34u8)))) && (((((118u8 ^ 202u8) == 188u8) && ((8u8 ^ 37u8) == 45u8)) && (((0u8 ^ 31u8) == 31u8) && ((6u8 ^ 140u8) == 138u8))) && ((((150u8 ^ 92u8) == 202u8) && ((52u8 ^ 225u8) == 213u8)) && (((63u8 ^ 131u8) == 188u8) && (((227u8 ^ 51u8) == 208u8) && ((6u8 ^ 88u8) == 94u8))))))
}

#[verifier::opaque]
spec fn bytes_p_1_104() -> bool {
    (bit_of(85u8, 7) == 0u8)
}

#[verifier::opaque]
spec fn bytes_p_1_105() -> bool {
    (((((bit_of(133u8, 0) == 1u8) && ((227u8 ^ 43u8) == 200u8)) && (((237u8 ^ 111u8) == 130u8) && ((13u8 ^ 205u8) == 192u8))) && ((((141u8 ^ 75u8) == 198u8) && ((241u8 ^ 248u8) == 9u8)) && (((143u8 ^ 7u8) == 136u8) && ((34u8 ^ 200u8) == 234u8)))) && (((((188u8 ^ 43u8) == 151u8) && ((45u8 ^ 151u8) == 186u8)) && (((31u8 ^ 124u8) == 99u8) && ((138u8 ^ 48u8) == 186u8))) && ((((202u8 ^ 114u8) == 184u8) && ((213u8 ^ 133u8) == 80u8)) && (((188u8 ^ 15u8) == 179u8) && (((208u8 ^ 206u8) == 30u8) && ((94u8 ^ 96u8) == 62u8))))))
}

#[verifier::opaque]
spec fn bytes_p_1_106() -> bool {
    (bit_of(133u8, 1) == 0u8)
}

#[verifier::opaque]
spec fn bytes_p_1_107() -> bool {
    (((((bit_of(133u8, 2) == 1u8) && ((200u8 ^ 43u8) == 227u8)) && (((130u8 ^ 188u8) == 62u8) && ((192u8 ^ 53u8) == 245u8))) && ((((198u8 ^ 47u8) == 233u8) && ((9u8 ^ 225u8) == 232u8)) && (((136u8 ^ 31u8) == 151u8) && ((234u8 ^ 32u8) == 202u8)))) && (((((151u8 ^ 175u8) == 56u8) && ((186u8 ^ 92u8) == 230u8)) && (((99u8 ^ 242u8) == 145u8) && ((186u8 ^ 193u8) == 123u8))) && ((((184u8 ^ 200u8) == 112u8) && ((80u8 ^ 21u8) == 69u8)) && (((179u8 ^ 62u8) == 141u8) && (((30u8 ^ 56u8) == 38u8) && ((62u8 ^ 131u8) == 189u8))))))
}

#[verifier::opaque]
spec fn bytes_p_1_108() -> bool {
    (bit_of(133u8, 3) == 0u8)
}

#[verifier::opaque]
spec fn bytes_p_1_109() -> bool {
    (bit_of(133u8, 4) == 0u8)
}

#[verifier::opaque]
spec fn bytes_p_1_110() -> bool {
    (bit_of(133u8, 5) == 0u8)
}

#[verifier::opaque]
spec fn bytes_p_1_111() -> bool {
    (bit_of(133u8, 6) == 0u8)
}

#[verifier::opaque]
spec fn bytes_p_1_112() -> bool {
    (((((bit_of(133u8, 7) == 1u8) && ((227u8 ^ 16u8) == 243u8)) && (((62u8 ^ 141u8) == 179u8) && ((245u8 ^ 183u8) == 66u8))) && ((((233u8 ^ 230u8) == 15u8) && ((232u8 ^ 37u8) == 205u8)) && (((151u8 ^ 252u8) == 107u8) && ((202u8 ^ 3u8) == 201u8)))) && (((((56u8 ^ 228u8) == 220u8) && ((230u8 ^ 149u8) == 115u8)) && (((145u8 ^ 75u8) == 218u8) && ((123u8 ^ 62u8) == 69u8))) && ((((112u8 ^ 24u8) == 104u8) && ((69u8 ^ 185u8) == 252u8)) && (((141u8 ^ 194u8) == 79u8) && (((38u8 ^ 7u8) == 33u8) && ((189u8 ^ 103u8) == 218u8))))))
}

#[verifier::opaque]
spec fn bytes_p_1_113() -> bool {
    (((((bit_of(61u8, 0) == 1u8) && ((243u8 ^ 32u8) == 211u8)) && (((179u8 ^ 26u8) == 169u8) && ((66u8 ^ 111u8) == 45u8))) && ((((15u8 ^ 205u8) == 194u8) && ((205u8 ^ 75u8) == 134u8)) && (((107u8 ^ 248u8) == 147u8) && ((201u8 ^ 7u8) == 206u8)))) && (((((220u8 ^ 200u8) == 20u8) && ((115u8 ^ 43u8) == 88u8)) && (((218u8 ^ 151u8) == 77u8) && ((69u8 ^ 124u8) == 57u8))) && ((((104u8 ^ 48u8) == 88u8) && ((252u8 ^ 114u8) == 142u8)) && (((79u8 ^ 133u8) == 202u8) && (((33u8 ^ 15u8) == 46u8) && ((218u8 ^ 206u8) == 20u8))))))
}

#[verifier::opaque]
spec fn bytes_p_1_114() -> bool {
    (bit_of(61u8, 1) == 0u8)
}

#[verifier::opaque]
spec fn bytes_p_1_115() -> bool {
    (((((bit_of(61u8, 2) == 1u8) && ((211u8 ^ 9u8) == 218u8)) && (((169u8 ^ 105u8) == 192u8) && ((45u8 ^ 188u8) == 145u8))) && ((((194u8 ^ 53u8) == 247u8) && ((134u8 ^ 47u8) == 169u8)) && (((147u8 ^ 225u8) == 114u8) && ((206u8 ^ 31u8) == 209u8)))) && (((((20u8 ^ 32u8) == 52u8) && ((88u8 ^ 175u8) == 247u8)) && (((77u8 ^ 92u8) == 17u8) && ((57u8 ^ 242u8) == 203u8))) && ((((88u8 ^ 193u8) == 153u8) && ((142u8 ^ 200u8) == 70u8)) && (((202u8 ^ 21u8) == 223u8) && (((46u8 ^ 62u8) == 16u8) && ((20u8 ^ 56u8) == 44u8))))))
}

#[verifier::opaque]
spec fn bytes_p_1_116() -> bool {
    (((((bit_of(61u8, 3) == 1u8) && ((218u8 ^ 18u8) == 200u8)) && (((192u8 ^ 210u8) == 18u8) && ((145u8 ^ 120u8) == 233u8))) && ((((247u8 ^ 107u8) == 156u8) && ((169u8 ^ 94u8) == 247u8)) && (((114u8 ^ 194u8) == 176u8) && ((209u8 ^ 63u8) == 238u8)))) && (((((52u8 ^ 64u8) == 116u8) && ((247u8 ^ 94u8) == 169u8)) && (((17u8 ^ 185u8) == 168u8) && ((203u8 ^ 228u8) == 47u8))) && ((((153u8 ^ 131u8) == 26u8) && ((70u8 ^ 145u8) == 215u8)) && (((223u8 ^ 43u8) == 244u8) && (((16u8 ^ 124u8) == 108u8) && ((44u8 ^ 112u8) == 92u8))))))
}

#[verifier::opaque]
spec fn bytes_p_1_117() -> bool {
    (((((bit_of(61u8, 4) == 1u8) && ((200u8 ^ 36u8) == 236u8)) && (((18u8 ^ 164u8) == 182u8) && ((233u8 ^ 241u8) == 24u8))) && ((((156u8 ^ 214u8) == 74u8) && ((247u8 ^ 188u8) == 75u8)) && (((176u8 ^ 132u8) == 52u8) && ((238u8 ^ 127u8) == 145u8)))) && (((((116u8 ^ 128u8) == 244u8) && ((169u8 ^ 188u8) == 21u8)) && (((168u8 ^ 114u8) == 218u8) && ((47u8 ^ 201u8) == 230u8))) && ((((26u8 ^ 7u8) == 29u8) && ((215u8 ^ 35u8) == 244u8)) && (((244u8 ^ 87u8) == 163u8) && (((108u8 ^ 248u8) == 148u8) && ((92u8 ^ 224u8) == 188u8))))))
}

#[verifier::opaque]
spec fn bytes_p_1_118() -> bool {
    (((((bit_of(61u8, 5) == 1u8) && ((236u8 ^ 207u8) == 35u8)) && (((182u8 ^ 72u8) == 254u8) && ((24u8 ^ 227u8) == 251u8))) && ((((74u8 ^ 173u8) == 231u8) && ((75u8 ^ 121u8) == 50u8)) && (((52u8 ^ 9u8) == 61u8) && ((145u8 ^ 255u8) == 110u8)))) && (((((244u8 ^ 0u8) == 244u8) && ((21u8 ^ 121u8) == 108u8)) && (((218u8 ^ 229u8) == 63u8) && ((230u8 ^ 146u8) == 116u8))) && ((((29u8 ^ 15u8) == 18u8) && ((244u8 ^ 70u8) == 178u8)) && (((163u8 ^ 174u8) == 13u8) && (((148u8 ^ 240u8) == 100u8) && ((188u8 ^ 193u8) == 125u8))))))
}

#[verifier::opaque]
spec fn bytes_p_1_119() -> bool {
    (bit_of(61u8, 6) == 0u8)
}

#[verifier::opaque]
spec fn bytes_p_1_120() -> bool {
    (bit_of(61u8, 7) == 0u8)
}

#[verifier::opaque]
spec fn bytes_p_1_121() -> bool {
    (((((bit_of(5u8, 0) == 1u8) && ((35u8 ^ 106u8) == 73u8)) && (((254u8 ^ 69u8) == 187u8) && ((251u8 ^ 26u8) == 225u8))) && ((((231u8 ^ 111u8) == 136u8) && ((50u8 ^ 205u8) == 255u8)) && (((61u8 ^ 75u8) == 118u8) && ((110u8 ^ 248u8) == 150u8)))) && (((((244u8 ^ 7u8) == 243u8) && ((108u8 ^ 200u8) == 164u8)) && (((63u8 ^ 43u8) == 20u8) && ((116u8 ^ 151u8) == 227u8))) && ((((18u8 ^ 124u8) == 110u8) && ((178u8 ^ 48u8) == 130u8)) && (((13u8 ^ 114u8) == 127u8) && (((100u8 ^ 133u8) == 225u8) && ((125u8 ^ 15u8) == 114u8))))))
}

#[verifier::opaque]
spec fn bytes_p_1_122() -> bool {
    (bit_of(5u8, 1) == 0u8)
}

#[verifier::opaque]
spec fn bytes_p_1_123() -> bool {
    (((((bit_of(5u8, 2) == 1u8) && ((73u8 ^ 168u8) == 225u8)) && (((187u8 ^ 21u8) == 174u8) && ((225u8 ^ 105u8) == 136u8))) && ((((136u8 ^ 188u8) == 52u8) && ((255u8 ^ 53u8) == 202u8)) && (((118u8 ^ 47u8) == 89u8) && ((150u8 ^ 225u8) == 119u8)))) && (((((243u8 ^ 31u8) == 236u8) && ((164u8 ^ 32u8) == 132u8)) && (((20u8 ^ 175u8) == 187u8) && ((227u8 ^ 92u8) == 191u8))) && ((((110u8 ^ 242u8) == 156u8) && ((130u8 ^ 193u8) == 67u8)) && (((127u8 ^ 200u8) == 183u8) && (((225u8 ^ 21u8) == 244u8) && ((114u8 ^ 62u8) == 76u8))))))
}

#[verifier::opaque]
spec fn bytes_p_1_124() -> bool {
    (bit_of(5u8, 3) == 0u8)
}

#[verifier::opaque]
spec fn bytes_p_1_125() -> bool {
    (bit_of(5u8, 4) == 0u8)
}

#[verifier::opaque]
spec fn bytes_p_1_126() -> bool {
    (bit_of(5u8, 5) == 0u8)
}

#[verifier::opaque]
spec fn bytes_p_1_127() -> bool {
    (bit_of(5u8, 6) == 0u8)
}

#[verifier::opaque]
spec fn bytes_p_1_128() -> bool {
    (bit_of(5u8, 7) == 0u8)
}

#[verifier::opaque]
spec fn bytes_p_2_1() -> bool {
    (((((bit_of(225u8, 0) == 1u8) && ((0u8 ^ 13u8) == 13u8)) && (((0u8 ^ 206u8) == 206u8) && ((0u8 ^ 96u8) == 96u8))) && ((((0u8 ^ 85u8) == 85u8) && ((0u8 ^ 172u8) == 172u8)) && (((0u8 ^ 232u8) == 232u8) && ((0u8 ^ 63u8) == 63u8)))) && (((((0u8 ^ 161u8) == 161u8) && ((0u8 ^ 28u8) == 28u8)) && (((0u8 ^ 154u8) == 154u8) && ((0u8 ^ 151u8) == 151u8))) && ((((0u8 ^ 169u8) == 169u8) && ((0u8 ^ 133u8) == 133u8)) && (((0u8 ^ 61u8) == 61u8) && ((0u8 ^ 5u8) == 5u8)))))
}

#[verifier::opaque]
spec fn bytes_p_2_2() -> bool {
    (bit_of(225u8, 1) == 0u8)
}

#[verifier::opaque]
spec fn bytes_p_2_3() -> bool {
    (bit_of(225u8, 2) == 0u8)
}

#[verifier::opaque]
spec fn bytes_p_2_4() -> bool {
    (bit_of(225u8, 3) == 0u8)
}

#[verifier::opaque]
spec fn bytes_p_2_5() -> bool {
    (bit_of(225u8, 4) == 0u8)
}

#[verifier::opaque]
spec fn bytes_p_2_6() -> bool {
    (((((bit_of(225u8, 5) == 1u8) && ((13u8 ^ 160u8) == 173u8)) && (((206u8 ^ 193u8) == 15u8) && ((96u8 ^ 25u8) == 121u8))) && ((((85u8 ^ 172u8) == 249u8) && ((172u8 ^ 138u8) == 38u8)) && (((232u8 ^ 21u8) == 253u8) && ((63u8 ^ 253u8) == 194u8)))) && (((((161u8 ^ 39u8) == 134u8) && ((28u8 ^ 148u8) == 136u8)) && (((154u8 ^ 67u8) == 217u8) && ((151u8 ^ 243u8) == 100u8))) && ((((169u8 ^ 50u8) == 155u8) && ((85u8 ^ 181u8) == 224u8)) && (((133u8 ^ 170u8) == 47u8) && (((61u8 ^ 176u8) == 141u8) && ((5u8 ^ 167u8) == 162u8))))))
}

#[verifier::opaque]
spec fn bytes_p_2_7() -> bool {
    (((((bit_of(225u8, 6) == 1u8) && ((173u8 ^ 199u8) == 106u8)) && (((15u8 ^ 131u8) == 140u8) && ((121u8 ^ 51u8) == 74u8))) && ((((249u8 ^ 88u8) == 161u8) && ((38u8 ^ 21u8) == 51u8)) && (((253u8 ^ 43u8) == 214u8) && ((194u8 ^ 250u8) == 56u8)))) && (((((134u8 ^ 79u8) == 201u8) && ((136u8 ^ 40u8) == 160u8)) && (((217u8 ^ 135u8) == 94u8) && ((100u8 ^ 230u8) == 130u8))) && ((((155u8 ^ 101u8) == 254u8) && ((224u8 ^ 106u8) == 138u8)) && (((47u8 ^ 85u8) == 122u8) && (((141u8 ^ 97u8) == 236u8) && ((162u8 ^ 79u8) == 237u8))))))
}

#[verifier::opaque]
spec fn bytes_p_2_8() -> bool {
    (((((bit_of(225u8, 7) == 1u8) && ((106u8 ^ 142u8) == 228u8)) && (((140u8 ^ 7u8) == 139u8) && ((74u8 ^ 103u8) == 45u8))) && ((((161u8 ^ 176u8) == 17u8) && ((51u8 ^ 42u8) == 25u8)) && (((214u8 ^ 86u8) == 128u8) && ((56u8 ^ 244u8) == 204u8)))) && (((((201u8 ^ 159u8) == 86u8) && ((160u8 ^ 80u8) == 240u8)) && (((94u8 ^ 14u8) == 80u8) && ((130u8 ^ 205u8) == 79u8))) && ((((254u8 ^ 203u8) == 53u8) && ((138u8 ^ 212u8) == 94u8)) && (((122u8 ^ 170u8) == 208u8) && (((236u8 ^ 194u8) == 46u8) && ((237u8 ^ 158u8) == 115u8))))))
}

#[verifier::opaque]
spec fn bytes_p_2_9() -> bool {
    (bit_of(174u8, 0) == 0u8)
}

#[verifier::opaque]
spec fn bytes_p_2_10() -> bool {
    (((((bit_of(174u8, 1) == 1u8) && ((228u8 ^ 54u8) == 210u8)) && (((139u8 ^ 31u8) == 148u8) && ((45u8 ^ 156u8) == 177u8))) && ((((17u8 ^ 193u8) == 208u8) && ((25u8 ^ 170u8) == 179u8)) && (((128u8 ^ 88u8) == 216u8) && ((204u8 ^ 209u8) == 29u8)))) && (((((86u8 ^ 127u8) == 41u8) && ((240u8 ^ 66u8) == 178u8)) && (((80u8 ^ 57u8) == 105u8) && ((79u8 ^ 52u8) == 123u8))) && ((((53u8 ^ 47u8) == 26u8) && ((94u8 ^ 83u8) == 13u8)) && (((208u8 ^ 171u8) == 123u8) && (((46u8 ^ 10u8) == 36u8) && ((115u8 ^ 123u8) == 8u8))))))
}

#[verifier::opaque]
spec fn bytes_p_2_11() -> bool {
    (((((bit_of(174u8, 2) == 1u8) && ((210u8 ^ 108u8) == 190u8)) && (((148u8 ^ 62u8) == 170u8) && ((177u8 ^ 56u8) == 137u8))) && ((((208u8 ^ 131u8) == 83u8) && ((179u8 ^ 85u8) == 230u8)) && (((216u8 ^ 177u8) == 105u8) && ((29u8 ^ 162u8) == 191u8)))) && (((((41u8 ^ 255u8) == 214u8) && ((178u8 ^ 132u8) == 54u8)) && (((105u8 ^ 114u8) == 27u8) && ((123u8 ^ 104u8) == 19u8))) && ((((26u8 ^ 94u8) == 68u8) && ((13u8 ^ 166u8) == 171u8)) && (((123u8 ^ 86u8) == 45u8) && (((36u8 ^ 21u8) == 49u8) && ((8u8 ^ 246u8) == 254u8))))))
}

#[verifier::opaque]
spec fn bytes_p_2_12() -> bool {
    (((((bit_of(174u8, 3) == 1u8) && ((190u8 ^ 95u8) == 225u8)) && (((170u8 ^ 124u8) == 214u8) && ((137u8 ^ 112u8) == 249u8))) && ((((83u8 ^ 6u8) == 85u8) && ((230u8 ^ 171u8) == 77u8)) && (((105u8 ^ 98u8) == 11u8) && ((191u8 ^ 69u8) == 250u8)))) && (((((214u8 ^ 255u8) == 41u8) && ((54u8 ^ 9u8) == 63u8)) && (((27u8 ^ 229u8) == 254u8) && ((19u8 ^ 208u8) == 195u8))) && ((((68u8 ^ 188u8) == 248u8) && ((171u8 ^ 76u8) == 231u8)) && (((45u8 ^ 173u8) == 128u8) && (((49u8 ^ 42u8) == 27u8) && ((254u8 ^ 236u8) == 18u8))))))
}

#[verifier::opaque]
spec fn bytes_p_2_13() -> bool {
    (bit_of(174u8, 4) == 0u8)
}

#[verifier::opaque]
spec fn bytes_p_2_14() -> bool {
    (((((bit_of(174u8, 5) == 1u8) && ((225u8 ^ 245u8) == 20u8)) && (((214u8 ^ 240u8) == 38u8) && ((249u8 ^ 193u8) == 56u8))) && ((((85u8 ^ 25u8) == 76u8) && ((77u8 ^ 172u8) == 225u8)) && (((11u8 ^ 138u8) == 129u8) && ((250u8 ^ 21u8) == 239u8)))) && (((((41u8 ^ 253u8) == 212u8) && ((63u8 ^ 39u8) == 24u8)) && (((254u8 ^ 148u8) == 106u8) && ((195u8 ^ 67u8) == 128u8))) && ((((248u8 ^ 243u8) == 11u8) && ((231u8 ^ 50u8) == 213u8)) && (((128u8 ^ 181u8) == 53u8) && (((27u8 ^ 170u8) == 177u8) && ((18u8 ^ 176u8) == 162u8))))))
}

#[verifier::opaque]
spec fn bytes_p_2_15() -> bool {
    (bit_of(174u8, 6) == 0u8)
}

#[verifier::opaque]
spec fn bytes_p_2_16() -> bool {
    (((((bit_of(174u8, 7) == 1u8) && ((20u8 ^ 218u8) == 206u8)) && (((38u8 ^ 194u8) == 228u8) && ((56u8 ^ 7u8) == 63u8))) && ((((76u8 ^ 103u8) == 43u8) && ((225u8 ^ 176u8) == 81u8)) && (((129u8 ^ 42u8) == 171u8) && ((239u8 ^ 86u8) == 185u8)))) && (((((212u8 ^ 244u8) == 32u8) && ((24u8 ^ 159u8) == 135u8)) && (((106u8 ^ 80u8) == 58u8) && ((128u8 ^ 14u8) == 142u8))) && ((((11u8 ^ 205u8) == 198u8) && ((213u8 ^ 203u8) == 30u8)) && (((53u8 ^ 212u8) == 225u8) && (((177u8 ^ 170u8) == 27u8) && ((162u8 ^ 194u8) == 96u8))))))
}

#[verifier::opaque]
spec fn bytes_p_2_17() -> bool {
    (bit_of(136u8, 0) == 0u8)
}

#[verifier::opaque]
spec fn bytes_p_2_18() -> bool {
    (bit_of(136u8, 1) == 0u8)
}

#[verifier::opaque]
spec fn bytes_p_2_19() -> bool {
    (bit_of(136u8, 2) == 0u8)
}

#[verifier::opaque]
spec fn bytes_p_2_20() -> bool {
    (((((bit_of(136u8, 3) == 1u8) && ((206u8 ^ 132u8) == 74u8)) && (((228u8 ^ 43u8) == 207u8) && ((63u8 ^ 124u8) == 67u8))) && ((((43u8 ^ 112u8) == 91u8) && ((81u8 ^ 6u8) == 87u8)) && (((171u8 ^ 171u8) == 0u8) && ((185u8 ^ 98u8) == 219u8)))) && (((((32u8 ^ 69u8) == 101u8) && ((135u8 ^ 255u8) == 120u8)) && (((58u8 ^ 9u8) == 51u8) && ((142u8 ^ 229u8) == 107u8))) && ((((198u8 ^ 208u8) == 22u8) && ((30u8 ^ 188u8) == 162u8)) && (((225u8 ^ 76u8) == 173u8) && (((27u8 ^ 173u8) == 182u8) && ((96u8 ^ 42u8) == 74u8))))))
}

#[verifier::opaque]
spec fn bytes_p_2_21() -> bool {
    (bit_of(136u8, 4) == 0u8)
}

#[verifier::opaque]
spec fn bytes_p_2_22() -> bool {
    (bit_of(136u8, 5) == 0u8)
}

#[verifier::opaque]
spec fn bytes_p_2_23() -> bool {
    (bit_of(136u8, 6) == 0u8)
}

#[verifier::opaque]
spec fn bytes_p_2_24() -> bool {
    (((((bit_of(136u8, 7) == 1u8) && ((74u8 ^ 78u8) == 4u8)) && (((207u8 ^ 185u8) == 118u8) && ((67u8 ^ 194u8) == 129u8))) && ((((91u8 ^ 7u8) == 92u8) && ((87u8 ^ 103u8) == 48u8)) && (((0u8 ^ 176u8) == 176u8) && ((219u8 ^ 42u8) == 241u8)))) && (((((101u8 ^ 86u8) == 51u8) && ((120u8 ^ 244u8) == 140u8)) && (((51u8 ^ 159u8) == 172u8) && ((107u8 ^ 80u8) == 59u8))) && ((((22u8 ^ 14u8) == 24u8) && ((162u8 ^ 205u8) == 111u8)) && (((173u8 ^ 203u8) == 102u8) && (((182u8 ^ 212u8) == 98u8) && ((74u8 ^ 170u8) == 224u8))))))
}

#[verifier::opaque]
spec fn bytes_p_2_25() -> bool {
    (bit_of(52u8, 0) == 0u8)
}

#[verifier::opaque]
spec fn bytes_p_2_26() -> bool {
    (bit_of(52u8, 1) == 0u8)
}

#[verifier::opaque]
spec fn bytes_p_2_27() -> bool {
    (((((bit_of(52u8, 2) == 1u8) && ((4u8 ^ 235u8) == 239u8)) && (((118u8 ^ 200u8) == 190u8) && ((129u8 ^ 21u8) == 148u8))) && ((((92u8 ^ 62u8) == 98u8) && ((48u8 ^ 56u8) == 8u8)) && (((176u8 ^ 131u8) == 51u8) && ((241u8 ^ 85u8) == 164u8)))) && (((((51u8 ^ 177u8) == 130u8) && ((140u8 ^ 162u8) == 46u8)) && (((172u8 ^ 255u8) == 83u8) && ((59u8 ^ 132u8) == 191u8))) && ((((24u8 ^ 114u8) == 106u8) && ((111u8 ^ 104u8) == 7u8)) && (((102u8 ^ 94u8) == 56u8) && (((98u8 ^ 166u8) == 196u8) && ((224u8 ^ 86u8) == 182u8))))))
}

#[verifier::opaque]
spec fn bytes_p_2_28() -> bool {
    (bit_of(52u8, 3) == 0u8)
}

#[verifier::opaque]
spec fn bytes_p_2_29() -> bool {
    (((((bit_of(52u8, 4) == 1u8) && ((239u8 ^ 43u8) == 196u8)) && (((190u8 ^ 35u8) == 157u8) && ((148u8 ^ 87u8) == 195u8))) && ((((98u8 ^ 248u8) == 154u8) && ((8u8 ^ 224u8) == 232u8)) && (((51u8 ^ 12u8) == 63u8) && ((164u8 ^ 86u8) == 242u8)))) && (((((130u8 ^ 197u8) == 71u8) && ((46u8 ^ 138u8) == 164u8)) && (((83u8 ^ 254u8) == 173u8) && ((191u8 ^ 19u8) == 172u8))) && ((((106u8 ^ 202u8) == 160u8) && ((7u8 ^ 161u8) == 166u8)) && (((56u8 ^ 121u8) == 65u8) && (((196u8 ^ 153u8) == 93u8) && ((182u8 ^ 90u8) == 236u8))))))
}

#[verifier::opaque]
spec fn bytes_p_2_30() -> bool {
    (((((bit_of(52u8, 5) == 1u8) && ((196u8 ^ 86u8) == 146u8)) && (((157u8 ^ 70u8) == 219u8) && ((195u8 ^ 174u8) == 109u8))) && ((((154u8 ^ 240u8) == 106u8) && ((232u8 ^ 193u8) == 41u8)) && (((63u8 ^ 25u8) == 38u8) && ((242u8 ^ 172u8) == 94u8)))) && (((((71u8 ^ 138u8) == 205u8) && ((164u8 ^ 21u8) == 177u8)) && (((173u8 ^ 253u8) == 80u8) && ((172u8 ^ 39u8) == 139u8))) && ((((160u8 ^ 148u8) == 52u8) && ((166u8 ^ 67u8) == 229u8)) && (((65u8 ^ 243u8) == 178u8) && (((93u8 ^ 50u8) == 111u8) && ((236u8 ^ 181u8) == 89u8))))))
}

#[verifier::opaque]
spec fn bytes_p_2_31() -> bool {
    (bit_of(52u8, 6) == 0u8)
}

#[verifier::opaque]
spec fn bytes_p_2_32() -> bool {
    (bit_of(52u8, 7) == 0u8)
}

#[verifier::opaque]
spec fn bytes_p_2_33() -> bool {
    (bit_of(202u8, 0) == 0u8)
}

#[verifier::opaque]
spec fn bytes_p_2_34() -> bool {
    (((((bit_of(202u8, 1) == 1u8) && ((146u8 ^ 209u8) == 67u8)) && (((219u8 ^ 96u8) == 187u8) && ((109u8 ^ 228u8) == 137u8))) && ((((106u8 ^ 10u8) == 96u8) && ((41u8 ^ 31u8) == 54u8)) && (((38u8 ^ 156u8) == 186u8) && ((94u8 ^ 193u8) == 159u8)))) && (((((205u8 ^ 170u8) == 103u8) && ((177u8 ^ 88u8) == 233u8)) && (((80u8 ^ 209u8) == 129u8) && ((139u8 ^ 127u8) == 244u8))) && ((((52u8 ^ 66u8) == 118u8) && ((229u8 ^ 57u8) == 220u8)) && (((178u8 ^ 52u8) == 134u8) && (((111u8 ^ 47u8) == 64u8) && ((89u8 ^ 83u8) == 10u8))))))
}

#[verifier::opaque]
spec fn bytes_p_2_35() -> bool {
    (bit_of(202u8, 2) == 0u8)
}

#[verifier::opaque]
spec fn bytes_p_2_36() -> bool {
    (((((bit_of(202u8, 3) == 1u8) && ((67u8 ^ 195u8) == 128u8)) && (((187u8 ^ 131u8) == 56u8) && ((137u8 ^ 145u8) == 24u8))) && ((((96u8 ^ 43u8) == 75u8) && ((54u8 ^ 124u8) == 74u8)) && (((186u8 ^ 112u8) == 202u8) && ((159u8 ^ 6u8) == 153u8)))) && (((((103u8 ^ 171u8) == 204u8) && ((233u8 ^ 98u8) == 139u8)) && (((129u8 ^ 69u8) == 196u8) && ((244u8 ^ 255u8) == 11u8))) && ((((118u8 ^ 9u8) == 127u8) && ((220u8 ^ 229u8) == 57u8)) && (((134u8 ^ 208u8) == 86u8) && (((64u8 ^ 188u8) == 252u8) && ((10u8 ^ 76u8) == 70u8))))))
}

#[verifier::opaque]
spec fn bytes_p_2_37() -> bool {
    (bit_of(202u8, 4) == 0u8)
}

#[verifier::opaque]
spec fn bytes_p_2_38() -> bool {
    (bit_of(202u8, 5) == 0u8)
}

#[verifier::opaque]
spec fn bytes_p_2_39() -> bool {
    (((((bit_of(202u8, 6) == 1u8) && ((128u8 ^ 22u8) == 150u8)) && (((56u8 ^ 31u8) == 39u8) && ((24u8 ^ 140u8) == 148u8))) && ((((75u8 ^ 92u8) == 23u8) && ((74u8 ^ 225u8) == 171u8)) && (((202u8 ^ 131u8) == 73u8) && ((153u8 ^ 51u8) == 170u8)))) && (((((204u8 ^ 88u8) == 148u8) && ((139u8 ^ 21u8) == 158u8)) && (((196u8 ^ 43u8) == 239u8) && ((11u8 ^ 250u8) == 241u8))) && ((((127u8 ^ 79u8) == 48u8) && ((57u8 ^ 40u8) == 17u8)) && (((86u8 ^ 135u8) == 209u8) && (((252u8 ^ 230u8) == 26u8) && ((70u8 ^ 101u8) == 35u8))))))
}

#[verifier::opaque]
spec fn bytes_p_2_40() -> bool {
    (((((bit_of(202u8, 7) == 1u8) && ((150u8 ^ 44u8) == 186u8)) && (((39u8 ^ 62u8) == 25u8) && ((148u8 ^ 24u8) == 140u8))) && ((((23u8 ^ 185u8) == 174u8) && ((171u8 ^ 194u8) == 105u8)) && (((73u8 ^ 7u8) == 78u8) && ((170u8 ^ 103u8) == 205u8)))) && (((((148u8 ^ 176u8) == 36u8) && ((158u8 ^ 42u8) == 180u8)) && (((239u8 ^ 86u8) == 185u8) && ((241u8 ^ 244u8) == 5u8))) && ((((48u8 ^ 159u8) == 175u8) && ((17u8 ^ 80u8) == 65u8)) && (((209u8 ^ 14u8) == 223u8) && (((26u8 ^ 205u8) == 215u8) && ((35u8 ^ 203u8) == 232u8))))))
}

#[verifier::opaque]
spec fn bytes_p_2_41() -> bool {
    (((((bit_of(89u8, 0) == 1u8) && ((186u8 ^ 223u8) == 101u8)) && (((25u8 ^ 124u8) == 101u8) && ((140u8 ^ 48u8) == 188u8))) && ((((174u8 ^ 114u8) == 220u8) && ((105u8 ^ 133u8) == 236u8)) && (((78u8 ^ 15u8) == 65u8) && ((205u8 ^ 206u8) == 3u8)))) && (((((36u8 ^ 96u8) == 68u8) && ((180u8 ^ 85u8) == 225u8)) && (((185u8 ^ 172u8) == 21u8) && ((5u8 ^ 232u8) == 237u8))) && ((((175u8 ^ 63u8) == 144u8) && ((65u8 ^ 161u8) == 224u8)) && (((223u8 ^ 28u8) == 195u8) && (((215u8 ^ 154u8) == 77u8) && ((232u8 ^ 151u8) == 127u8))))))
}

#[verifier::opaque]
spec fn bytes_p_2_42() -> bool {
    (bit_of(89u8, 1) == 0u8)
}

#[verifier::opaque]
spec fn bytes_p_2_43() -> bool {
    (bit_of(89u8, 2) == 0u8)
}

#[verifier::opaque]
spec fn bytes_p_2_44() -> bool {
    (((((bit_of(89u8, 3) == 1u8) && ((101u8 ^ 228u8) == 129u8)) && (((188u8 ^ 131u8) == 63u8) && ((220u8 ^ 145u8) == 77u8))) && ((((236u8 ^ 43u8) == 199u8) && ((65u8 ^ 124u8) == 61u8)) && (((3u8 ^ 112u8) == 115u8) && ((68u8 ^ 6u8) == 66u8)))) && (((((225u8 ^ 171u8) == 74u8) && ((21u8 ^ 98u8) == 119u8)) && (((237u8 ^ 69u8) == 168u8) && ((144u8 ^ 255u8) == 111u8))) && ((((224u8 ^ 9u8) == 233u8) && ((195u8 ^ 229u8) == 38u8)) && (((77u8 ^ 208u8) == 157u8) && ((127u8 ^ 188u8) == 195u8)))))
}

#[verifier::opaque]
spec fn bytes_p_2_45() -> bool {
    (((((bit_of(89u8, 4) == 1u8) && ((129u8 ^ 79u8) == 206u8)) && (((129u8 ^ 201u8) == 72u8) && ((63u8 ^ 7u8) == 56u8))) && ((((77u8 ^ 35u8) == 110u8) && ((199u8 ^ 87u8) == 144u8)) && (((61u8 ^ 248u8) == 197u8) && ((115u8 ^ 224u8) == 147u8)))) && (((((66u8 ^ 12u8) == 78u8) && ((74u8 ^ 86u8) == 28u8)) && (((119u8 ^ 197u8) == 178u8) && ((168u8 ^ 138u8) == 34u8))) && ((((111u8 ^ 254u8) == 145u8) && ((233u8 ^ 19u8) == 250u8)) && (((38u8 ^ 202u8) == 236u8) && (((157u8 ^ 161u8) == 60u8) && ((195u8 ^ 121u8) == 186u8))))))
}

#[verifier::opaque]
spec fn bytes_p_2_46() -> bool {
    (bit_of(89u8, 5) == 0u8)
}

#[verifier::opaque]
spec fn bytes_p_2_47() -> bool {
    (((((bit_of(89u8, 6) == 1u8) && ((206u8 ^ 187u8) == 117u8)) && (((72u8 ^ 37u8) == 109u8) && ((56u8 ^ 31u8) == 39u8))) && ((((110u8 ^ 140u8) == 226u8) && ((144u8 ^ 92u8) == 204u8)) && (((197u8 ^ 225u8) == 36u8) && ((147u8 ^ 131u8) == 16u8)))) && (((((78u8 ^ 51u8) == 125u8) && ((28u8 ^ 88u8) == 68u8)) && (((178u8 ^ 21u8) == 167u8) && ((34u8 ^ 43u8) == 9u8))) && ((((145u8 ^ 250u8) == 107u8) && ((250u8 ^ 79u8) == 181u8)) && (((236u8 ^ 40u8) == 196u8) && (((60u8 ^ 135u8) == 187u8) && ((186u8 ^ 230u8) == 92u8))))))
}

#[verifier::opaque]
spec fn bytes_p_2_48() -> bool {
    (bit_of(89u8, 7) == 0u8)
}

#[verifier::opaque]
spec fn bytes_p_2_49() -> bool {
    (((((bit_of(119u8, 0) == 1u8) && ((117u8 ^ 101u8) == 16u8)) && (((109u8 ^ 151u8) == 250u8) && ((39u8 ^ 124u8) == 91u8))) && ((((226u8 ^ 48u8) == 210u8) && ((204u8 ^ 114u8) == 190u8)) && (((36u8 ^ 133u8) == 161u8) && ((16u8 ^ 15u8) == 31u8)))) && (((((125u8 ^ 206u8) == 179u8) && ((68u8 ^ 96u8) == 36u8)) && (((167u8 ^ 85u8) == 242u8) && ((9u8 ^ 172u8) == 165u8))) && ((((107u8 ^ 232u8) == 131u8) && ((181u8 ^ 63u8) == 138u8)) && (((196u8 ^ 161u8) == 101u8) && (((187u8 ^ 28u8) == 167u8) && ((92u8 ^ 154u8) == 198u8))))))
}

#[verifier::opaque]
spec fn bytes_p_2_50() -> bool {
    (((((bit_of(119u8, 1) == 1u8) && ((16u8 ^ 77u8) == 93u8)) && (((250u8 ^ 46u8) == 212u8) && ((91u8 ^ 249u8) == 162u8))) && ((((210u8 ^ 96u8) == 178u8) && ((190u8 ^ 228u8) == 90u8)) && (((161u8 ^ 10u8) == 171u8) && ((31u8 ^ 31u8) == 0u8)))) && (((((179u8 ^ 156u8) == 47u8) && ((36u8 ^ 193u8) == 229u8)) && (((242u8 ^ 170u8) == 88u8) && ((165u8 ^ 88u8) == 253u8))) && ((((131u8 ^ 209u8) == 82u8) && ((138u8 ^ 127u8) == 245u8)) && (((101u8 ^ 66u8) == 39u8) && (((167u8 ^ 57u8) == 158u8) && ((198u8 ^ 52u8) == 242u8))))))
}

#[verifier::opaque]
spec fn bytes_p_2_51() -> bool {
    (((((bit_of(119u8, 2) == 1u8) && ((93u8 ^ 154u8) == 199u8)) && (((212u8 ^ 92u8) == 136u8) && ((162u8 ^ 242u8) == 80u8))) && ((((178u8 ^ 193u8) == 115u8) && ((90u8 ^ 200u8) == 146u8)) && (((171u8 ^ 21u8) == 190u8) && ((0u8 ^ 62u8) == 62u8)))) && (((((47u8 ^ 56u8) == 23u8) && ((229u8 ^ 131u8) == 102u8)) && (((88u8 ^ 85u8) == 13u8) && ((253u8 ^ 177u8) == 76u8))) && ((((82u8 ^ 162u8) == 240u8) && ((245u8 ^ 255u8) == 10u8)) && (((39u8 ^ 132u8) == 163u8) && (((158u8 ^ 114u8) == 236u8) && ((242u8 ^ 104u8) == 154u8))))))
}

#[verifier::opaque]
spec fn bytes_p_2_52() -> bool {
    (bit_of(119u8, 3) == 0u8)
}

#[verifier::opaque]
spec fn bytes_p_2_53() -> bool {
    (((((bit_of(119u8, 4) == 1u8) && ((199u8 ^ 239u8) == 40u8)) && (((136u8 ^ 114u8) == 250u8) && ((80u8 ^ 201u8) == 153u8))) && ((((115u8 ^ 7u8) == 116u8) && ((146u8 ^ 35u8) == 177u8)) && (((190u8 ^ 87u8) == 233u8) && ((62u8 ^ 248u8) == 198u8)))) && (((((23u8 ^ 224u8) == 247u8) && ((102u8 ^ 12u8) == 106u8)) && (((13u8 ^ 86u8) == 91u8) && ((76u8 ^ 197u8) == 137u8))) && ((((240u8 ^ 138u8) == 122u8) && ((10u8 ^ 254u8) == 244u8)) && (((163u8 ^ 19u8) == 176u8) && (((236u8 ^ 202u8) == 38u8) && ((154u8 ^ 161u8) == 59u8))))))
}

#[verifier::opaque]
spec fn bytes_p_2_54() -> bool {
    (((((bit_of(119u8, 5) == 1u8) && ((40u8 ^ 89u8) == 113u8)) && (((250u8 ^ 229u8) == 31u8) && ((153u8 ^ 146u8) == 11u8))) && ((((116u8 ^ 15u8) == 123u8) && ((177u8 ^ 70u8) == 247u8)) && (((233u8 ^ 174u8) == 71u8) && ((198u8 ^ 240u8) == 54u8)))) && (((((247u8 ^ 193u8) == 54u8) && ((106u8 ^ 25u8) == 115u8)) && (((91u8 ^ 172u8) == 247u8) && ((137u8 ^ 138u8) == 3u8))) && ((((122u8 ^ 21u8) == 111u8) && ((244u8 ^ 253u8) == 9u8)) && (((176u8 ^ 39u8) == 151u8) && (((38u8 ^ 148u8) == 178u8) && ((59u8 ^ 67u8) == 120u8))))))
}

#[verifier::opaque]
spec fn bytes_p_2_55() -> bool {
    (((((bit_of(119u8, 6) == 1u8) && ((113u8 ^ 178u8) == 195u8)) && (((31u8 ^ 202u8) == 213u8) && ((11u8 ^ 37u8) == 46u8))) && ((((123u8 ^ 31u8) == 100u8) && ((247u8 ^ 140u8) == 123u8)) && (((71u8 ^ 92u8) == 27u8) && ((54u8 ^ 225u8) == 215u8)))) && (((((54u8 ^ 131u8) == 181u8) && ((115u8 ^ 51u8) == 64u8)) && (((247u8 ^ 88u8) == 175u8) && ((3u8 ^ 21u8) == 22u8))) && ((((111u8 ^ 43u8) == 68u8) && ((9u8 ^ 250u8) == 243u8)) && (((151u8 ^ 79u8) == 216u8) && (((178u8 ^ 40u8) == 154u8) && ((120u8 ^ 135u8) == 255u8))))))
}

#[verifier::opaque]
spec fn bytes_p_2_56() -> bool {
    (bit_of(119u8, 7) == 0u8)
}

#[verifier::opaque]
spec fn bytes_p_2_57() -> bool {
    (bit_of(236u8, 0) == 0u8)
}

#[verifier::opaque]
spec fn bytes_p_2_58() -> bool {
    (bit_of(236u8, 1) == 0u8)
}

#[verifier::opaque]
spec fn bytes_p_2_59() -> bool {
    (((((bit_of(236u8, 2) == 1u8) && ((195u8 ^ 24u8) == 219u8)) && (((213u8 ^ 175u8) == 122u8) && ((46u8 ^ 92u8) == 114u8))) && ((((100u8 ^ 242u8) == 150u8) && ((123u8 ^ 193u8) == 186u8)) && (((27u8 ^ 200u8) == 211u8) && ((215u8 ^ 21u8) == 194u8)))) && (((((181u8 ^ 62u8) == 139u8) && ((64u8 ^ 56u8) == 120u8)) && (((175u8 ^ 131u8) == 44u8) && ((22u8 ^ 85u8) == 67u8))) && ((((68u8 ^ 177u8) == 245u8) && ((243u8 ^ 162u8) == 81u8)) && (((216u8 ^ 255u8) == 39u8) && (((154u8 ^ 132u8) == 30u8) && ((255u8 ^ 114u8) == 141u8))))))
}

#[verifier::opaque]
spec fn bytes_p_2_60() -> bool {
    (((((bit_of(236u8, 3) == 1u8) && ((219u8 ^ 48u8) == 235u8)) && (((122u8 ^ 94u8) == 36u8) && ((114u8 ^ 185u8) == 203u8))) && ((((150u8 ^ 228u8) == 114u8) && ((186u8 ^ 131u8) == 57u8)) && (((211u8 ^ 145u8) == 66u8) && ((194u8 ^ 43u8) == 233u8)))) && (((((139u8 ^ 124u8) == 247u8) && ((120u8 ^ 112u8) == 8u8)) && (((44u8 ^ 6u8) == 42u8) && ((67u8 ^ 171u8) == 232u8))) && ((((245u8 ^ 98u8) == 151u8) && ((81u8 ^ 69u8) == 20u8)) && (((39u8 ^ 255u8) == 216u8) && (((30u8 ^ 9u8) == 23u8) && ((141u8 ^ 229u8) == 104u8))))))
}

#[verifier::opaque]
spec fn bytes_p_2_61() -> bool {
    (bit_of(236u8, 4) == 0u8)
}

#[verifier::opaque]
spec fn bytes_p_2_62() -> bool {
    (((((bit_of(236u8, 5) == 1u8) && ((235u8 ^ 73u8) == 162u8)) && (((36u8 ^ 121u8) == 93u8) && ((203u8 ^ 229u8) == 46u8))) && ((((114u8 ^ 146u8) == 224u8) && ((57u8 ^ 15u8) == 54u8)) && (((66u8 ^ 70u8) == 4u8) && ((233u8 ^ 174u8) == 71u8)))) && (((((247u8 ^ 240u8) == 7u8) && ((8u8 ^ 193u8) == 201u8)) && (((42u8 ^ 25u8) == 51u8) && ((232u8 ^ 172u8) == 68u8))) && ((((151u8 ^ 138u8) == 29u8) && ((20u8 ^ 21u8) == 1u8)) && (((216u8 ^ 253u8) == 37u8) && (((23u8 ^ 39u8) == 48u8) && ((104u8 ^ 148u8) == 252u8))))))
}

#[verifier::opaque]
spec fn bytes_p_2_63() -> bool {
    (((((bit_of(236u8, 6) == 1u8) && ((162u8 ^ 21u8) == 183u8)) && (((93u8 ^ 242u8) == 175u8) && ((46u8 ^ 202u8) == 228u8))) && ((((224u8 ^ 37u8) == 197u8) && ((54u8 ^ 31u8) == 41u8)) && (((4u8 ^ 140u8) == 136u8) && ((71u8 ^ 92u8) == 27u8)))) && (((((7u8 ^ 225u8) == 230u8) && ((201u8 ^ 131u8) == 74u8)) && (((51u8 ^ 51u8) == 0u8) && ((68u8 ^ 88u8) == 28u8))) && ((((29u8 ^ 21u8) == 8u8) && ((1u8 ^ 43u8) == 42u8)) && (((37u8 ^ 250u8) == 223u8) && (((48u8 ^ 79u8) == 127u8) && ((252u8 ^ 40u8) == 212u8))))))
}

#[verifier::opaque]
spec fn bytes_p_2_64() -> bool {
    (((((bit_of(236u8, 7) == 1u8) && ((183u8 ^ 42u8) == 157u8)) && (((175u8 ^ 228u8) == 75u8) && ((228u8 ^ 149u8) == 113u8))) && ((((197u8 ^ 75u8) == 142u8) && ((41u8 ^ 62u8) == 23u8)) && (((136u8 ^ 24u8) == 144u8) && ((27u8 ^ 185u8) == 162u8)))) && (((((230u8 ^ 194u8) == 36u8) && ((74u8 ^ 7u8) == 77u8)) && (((0u8 ^ 103u8) == 103u8) && ((28u8 ^ 176u8) == 172u8))) && ((((8u8 ^ 42u8) == 34u8) && ((42u8 ^ 86u8) == 124u8)) && (((223u8 ^ 244u8) == 43u8) && (((127u8 ^ 159u8) == 224u8) && ((212u8 ^ 80u8) == 132u8))))))
}

#[verifier::opaque]
spec fn bytes_p_2_65() -> bool {
    (bit_of(132u8, 0) == 0u8)
}

#[verifier::opaque]
spec fn bytes_p_2_66() -> bool {
    (bit_of(132u8, 1) == 0u8)
}

#[verifier::opaque]
spec fn bytes_p_2_67() -> bool {
    (((((bit_of(132u8, 2) == 1u8) && ((157u8 ^ 94u8) == 195u8)) && (((75u8 ^ 32u8) == 107u8) && ((113u8 ^ 175u8) == 222u8))) && ((((142u8 ^ 92u8) == 210u8) && ((23u8 ^ 242u8) == 229u8)) && (((144u8 ^ 193u8) == 81u8) && ((162u8 ^ 200u8) == 106u8)))) && (((((36u8 ^ 21u8) == 49u8) && ((77u8 ^ 62u8) == 115u8)) && (((103u8 ^ 56u8) == 95u8) && ((172u8 ^ 131u8) == 47u8))) && ((((34u8 ^ 85u8) == 119u8) && ((124u8 ^ 177u8) == 205u8)) && (((43u8 ^ 162u8) == 137u8) && (((224u8 ^ 255u8) == 31u8) && ((132u8 ^ 132u8) == 0u8))))))
}

#[verifier::opaque]
spec fn bytes_p_2_68() -> bool {
    (bit_of(132u8, 3) == 0u8)
}

#[verifier::opaque]
spec fn bytes_p_2_69() -> bool {
    (bit_of(132u8, 4) == 0u8)
}

#[verifier::opaque]
spec fn bytes_p_2_70() -> bool {
    (bit_of(132u8, 5) == 0u8)
}

#[verifier::opaque]
spec fn bytes_p_2_71() -> bool {
    (bit_of(132u8, 6) == 0u8)
}

#[verifier::opaque]
spec fn bytes_p_2_72() -> bool {
    (((((bit_of(132u8, 7) == 1u8) && ((195u8 ^ 176u8) == 115u8)) && (((107u8 ^ 3u8) == 104u8) && ((222u8 ^ 228u8) == 58u8))) && ((((210u8 ^ 149u8) == 71u8) && ((229u8 ^ 75u8) == 174u8)) && (((81u8 ^ 62u8) == 111u8) && ((106u8 ^ 24u8) == 114u8)))) && (((((49u8 ^ 185u8) == 136u8) && ((115u8 ^ 194u8) == 177u8)) && (((95u8 ^ 7u8) == 88u8) && ((47u8 ^ 103u8) == 72u8))) && ((((119u8 ^ 176u8) == 199u8) && ((205u8 ^ 42u8) == 231u8)) && (((137u8 ^ 86u8) == 223u8) && (((31u8 ^ 244u8) == 235u8) && ((0u8 ^ 159u8) == 159u8))))))
}

#[verifier::opaque]
spec fn bytes_p_2_73() -> bool {
    (((((bit_of(187u8, 0) == 1u8) && ((115u8 ^ 231u8) == 148u8)) && (((104u8 ^ 7u8) == 111u8) && ((58u8 ^ 200u8) == 242u8))) && ((((71u8 ^ 43u8) == 108u8) && ((174u8 ^ 151u8) == 57u8)) && (((111u8 ^ 124u8) == 19u8) && ((114u8 ^ 48u8) == 66u8)))) && (((((136u8 ^ 114u8) == 250u8) && ((177u8 ^ 133u8) == 52u8)) && (((88u8 ^ 15u8) == 87u8) && ((72u8 ^ 206u8) == 134u8))) && ((((199u8 ^ 96u8) == 167u8) && ((231u8 ^ 85u8) == 178u8)) && (((223u8 ^ 172u8) == 115u8) && (((235u8 ^ 232u8) == 3u8) && ((159u8 ^ 63u8) == 160u8))))))
}

#[verifier::opaque]
spec fn bytes_p_2_74() -> bool {
    (((((bit_of(187u8, 1) == 1u8) && ((148u8 ^ 206u8) == 90u8)) && (((111u8 ^ 15u8) == 96u8) && ((242u8 ^ 144u8) == 98u8))) && ((((108u8 ^ 87u8) == 59u8) && ((57u8 ^ 46u8) == 23u8)) && (((19u8 ^ 249u8) == 234u8) && ((66u8 ^ 96u8) == 34u8)))) && (((((250u8 ^ 228u8) == 30u8) && ((52u8 ^ 10u8) == 62u8)) && (((87u8 ^ 31u8) == 72u8) && ((134u8 ^ 156u8) == 26u8))) && ((((167u8 ^ 193u8) == 102u8) && ((178u8 ^ 170u8) == 24u8)) && (((115u8 ^ 88u8) == 43u8) && (((3u8 ^ 209u8) == 210u8) && ((160u8 ^ 127u8) == 223u8))))))
}

#[verifier::opaque]
spec fn bytes_p_2_75() -> bool {
    (bit_of(187u8, 2) == 0u8)
}

#[verifier::opaque]
spec fn bytes_p_2_76() -> bool {
    (((((bit_of(187u8, 3) == 1u8) && ((90u8 ^ 191u8) == 229u8)) && (((96u8 ^ 63u8) == 95u8) && ((98u8 ^ 64u8) == 34u8))) && ((((59u8 ^ 94u8) == 101u8) && ((23u8 ^ 185u8) == 174u8)) && (((234u8 ^ 228u8) == 14u8) && ((34u8 ^ 131u8) == 161u8)))) && (((((30u8 ^ 145u8) == 143u8) && ((62u8 ^ 43u8) == 21u8)) && (((72u8 ^ 124u8) == 52u8) && ((26u8 ^ 112u8) == 106u8))) && ((((102u8 ^ 6u8) == 96u8) && ((24u8 ^ 171u8) == 179u8)) && (((43u8 ^ 98u8) == 73u8) && (((210u8 ^ 69u8) == 151u8) && ((223u8 ^ 255u8) == 32u8))))))
}

#[verifier::opaque]
spec fn bytes_p_2_77() -> bool {
    (((((bit_of(187u8, 4) == 1u8) && ((229u8 ^ 249u8) == 28u8)) && (((95u8 ^ 127u8) == 32u8) && ((34u8 ^ 128u8) == 162u8))) && ((((101u8 ^ 188u8) == 217u8) && ((174u8 ^ 114u8) == 220u8)) && (((14u8 ^ 201u8) == 199u8) && ((161u8 ^ 7u8) == 166u8)))) && (((((143u8 ^ 35u8) == 172u8) && ((21u8 ^ 87u8) == 66u8)) && (((52u8 ^ 248u8) == 204u8) && ((106u8 ^ 224u8) == 138u8))) && ((((96u8 ^ 12u8) == 108u8) && ((179u8 ^ 86u8) == 229u8)) && (((73u8 ^ 197u8) == 140u8) && (((151u8 ^ 138u8) == 29u8) && ((32u8 ^ 254u8) == 222u8))))))
}

#[verifier::opaque]
spec fn bytes_p_2_78() -> bool {
    (((((bit_of(187u8, 5) == 1u8) && ((28u8 ^ 117u8) == 105u8)) && (((32u8 ^ 255u8) == 223u8) && ((162u8 ^ 0u8) == 162u8))) && ((((217u8 ^ 121u8) == 160u8) && ((220u8 ^ 229u8) == 57u8)) && (((199u8 ^ 146u8) == 85u8) && ((166u8 ^ 15u8) == 169u8)))) && (((((172u8 ^ 70u8) == 234u8) && ((66u8 ^ 174u8) == 236u8)) && (((204u8 ^ 240u8) == 60u8) && ((138u8 ^ 193u8) == 75u8))) && ((((108u8 ^ 25u8) == 117u8) && ((229u8 ^ 172u8) == 73u8)) && (((140u8 ^ 138u8) == 6u8) && (((29u8 ^ 21u8) == 8u8) && ((222u8 ^ 253u8) == 35u8))))))
}

#[verifier::opaque]
spec fn bytes_p_2_79() -> bool {
    (bit_of(187u8, 6) == 0u8)
}

#[verifier::opaque]
spec fn bytes_p_2_80() -> bool {
    (((((bit_of(187u8, 7) == 1u8) && ((105u8 ^ 93u8) == 52u8)) && (((223u8 ^ 252u8) == 35u8) && ((162u8 ^ 3u8) == 161u8))) && ((((160u8 ^ 228u8) == 68u8) && ((57u8 ^ 149u8) == 172u8)) && (((85u8 ^ 75u8) == 30u8) && ((169u8 ^ 62u8) == 151u8)))) && (((((234u8 ^ 24u8) == 242u8) && ((236u8 ^ 185u8) == 85u8)) && (((60u8 ^ 194u8) == 254u8) && ((75u8 ^ 7u8) == 76u8))) && ((((117u8 ^ 103u8) == 18u8) && ((73u8 ^ 176u8) == 249u8)) && (((6u8 ^ 42u8) == 44u8) && (((8u8 ^ 86u8) == 94u8) && ((35u8 ^ 244u8) == 215u8))))))
}

#[verifier::opaque]
spec fn bytes_p_2_81() -> bool {
    (((((bit_of(191u8, 0) == 1u8) && ((52u8 ^ 61u8) == 9u8)) && (((35u8 ^ 248u8) == 219u8) && ((161u8 ^ 7u8) == 166u8))) && ((((68u8 ^ 200u8) == 140u8) && ((172u8 ^ 43u8) == 135u8)) && (((30u8 ^ 151u8) == 137u8) && ((151u8 ^ 124u8) == 235u8)))) && (((((242u8 ^ 48u8) == 194u8) && ((85u8 ^ 114u8) == 39u8)) && (((254u8 ^ 133u8) == 123u8) && ((76u8 ^ 15u8) == 67u8))) && ((((18u8 ^ 206u8) == 220u8) && ((249u8 ^ 96u8) == 153u8)) && (((44u8 ^ 85u8) == 121u8) && (((94u8 ^ 172u8) == 242u8) && ((215u8 ^ 232u8) == 63u8))))))
}

#[verifier::opaque]
spec fn bytes_p_2_82() -> bool {
    (((((bit_of(191u8, 1) == 1u8) && ((9u8 ^ 253u8) == 244u8)) && (((219u8 ^ 240u8) == 43u8) && ((166u8 ^ 15u8) == 169u8))) && ((((140u8 ^ 144u8) == 28u8) && ((135u8 ^ 87u8) == 208u8)) && (((137u8 ^ 46u8) == 167u8) && ((235u8 ^ 249u8) == 18u8)))) && (((((194u8 ^ 96u8) == 162u8) && ((39u8 ^ 228u8) == 195u8)) && (((123u8 ^ 10u8) == 113u8) && ((67u8 ^ 31u8) == 92u8))) && ((((220u8 ^ 156u8) == 64u8) && ((153u8 ^ 193u8) == 88u8)) && (((121u8 ^ 170u8) == 211u8) && (((242u8 ^ 88u8) == 170u8) && ((63u8 ^ 209u8) == 238u8))))))
}

#[verifier::opaque]
spec fn bytes_p_2_83() -> bool {
    (((((bit_of(191u8, 2) == 1u8) && ((244u8 ^ 125u8) == 137u8)) && (((43u8 ^ 225u8) == 202u8) && ((169u8 ^ 31u8) == 182u8))) && ((((28u8 ^ 32u8) == 60u8) && ((208u8 ^ 175u8) == 127u8)) && (((167u8 ^ 92u8) == 251u8) && ((18u8 ^ 242u8) == 224u8)))) && (((((162u8 ^ 193u8) == 99u8) && ((195u8 ^ 200u8) == 11u8)) && (((113u8 ^ 21u8) == 100u8) && ((92u8 ^ 62u8) == 98u8))) && ((((64u8 ^ 56u8) == 120u8) && ((88u8 ^ 131u8) == 219u8)) && (((211u8 ^ 85u8) == 134u8) && (((170u8 ^ 177u8) == 27u8) && ((238u8 ^ 162u8) == 76u8))))))
}

#[verifier::opaque]
spec fn bytes_p_2_84() -> bool {
    (((((bit_of(191u8, 3) == 1u8) && ((137u8 ^ 125u8) == 244u8)) && (((202u8 ^ 194u8) == 8u8) && ((182u8 ^ 63u8) == 137u8))) && ((((60u8 ^ 64u8) == 124u8) && ((127u8 ^ 94u8) == 33u8)) && (((251u8 ^ 185u8) == 66u8) && ((224u8 ^ 228u8) == 4u8)))) && (((((99u8 ^ 131u8) == 224u8) && ((11u8 ^ 145u8) == 154u8)) && (((100u8 ^ 43u8) == 79u8) && ((98u8 ^ 124u8) == 30u8))) && ((((120u8 ^ 112u8) == 8u8) && ((219u8 ^ 6u8) == 221u8)) && (((134u8 ^ 171u8) == 45u8) && (((27u8 ^ 98u8) == 121u8) && ((76u8 ^ 69u8) == 9u8))))))
}

#[verifier::opaque]
spec fn bytes_p_2_85() -> bool {
    (((((bit_of(191u8, 4) == 1u8) && ((244u8 ^ 250u8) == 14u8)) && (((8u8 ^ 132u8) == 140u8) && ((137u8 ^ 127u8) == 246u8))) && ((((124u8 ^ 128u8) == 252u8) && ((33u8 ^ 188u8) == 157u8)) && (((66u8 ^ 114u8) == 48u8) && ((4u8 ^ 201u8) == 205u8)))) && (((((224u8 ^ 7u8) == 231u8) && ((154u8 ^ 35u8) == 185u8)) && (((79u8 ^ 87u8) == 24u8) && ((30u8 ^ 248u8) == 230u8))) && ((((8u8 ^ 224u8) == 232u8) && ((221u8 ^ 12u8) == 209u8)) && (((45u8 ^ 86u8) == 123u8) && (((121u8 ^ 197u8) == 188u8) && ((9u8 ^ 138u8) == 131u8))))))
}

#[verifier::opaque]
spec fn bytes_p_2_86() -> bool {
    (((((bit_of(191u8, 5) == 1u8) && ((14u8 ^ 115u8) == 125u8)) && (((140u8 ^ 9u8) == 133u8) && ((246u8 ^ 255u8) == 9u8))) && ((((252u8 ^ 0u8) == 252u8) && ((157u8 ^ 121u8) == 228u8)) && (((48u8 ^ 229u8) == 213u8) && ((205u8 ^ 146u8) == 95u8)))) && (((((231u8 ^ 15u8) == 232u8) && ((185u8 ^ 70u8) == 255u8)) && (((24u8 ^ 174u8) == 182u8) && ((230u8 ^ 240u8) == 22u8))) && ((((232u8 ^ 193u8) == 41u8) && ((209u8 ^ 25u8) == 200u8)) && (((123u8 ^ 172u8) == 215u8) && (((188u8 ^ 138u8) == 54u8) && ((131u8 ^ 21u8) == 150u8))))))
}

#[verifier::opaque]
spec fn bytes_p_2_87() -> bool {
    (bit_of(191u8, 6) == 0u8)
}

#[verifier::opaque]
spec fn bytes_p_2_88() -> bool {
    (((((bit_of(191u8, 7) == 1u8) && ((125u8 ^ 204u8) == 177u8)) && (((133u8 ^ 37u8) == 160u8) && ((9u8 ^ 252u8) == 245u8))) && ((((252u8 ^ 3u8) == 255u8) && ((228u8 ^ 228u8) == 0u8)) && (((213u8 ^ 149u8) == 64u8) && ((95u8 ^ 75u8) == 20u8)))) && (((((232u8 ^ 62u8) == 214u8) && ((255u8 ^ 24u8) == 231u8)) && (((182u8 ^ 185u8) == 15u8) && ((22u8 ^ 194u8) == 212u8))) && ((((41u8 ^ 7u8) == 46u8) && ((200u8 ^ 103u8) == 175u8)) && (((215u8 ^ 176u8) == 103u8) && (((54u8 ^ 42u8) == 28u8) && ((150u8 ^ 86u8) == 192u8))))))
}

#[verifier::opaque]
spec fn bytes_p_2_89() -> bool {
    (bit_of(156u8, 0) == 0u8)
}

#[verifier::opaque]
spec fn bytes_p_2_90() -> bool {
    (bit_of(156u8, 1) == 0u8)
}

#[verifier::opaque]
spec fn bytes_p_2_91() -> bool {
    (((((bit_of(156u8, 2) == 1u8) && ((177u8 ^ 110u8) == 223u8)) && (((160u8 ^ 47u8) == 143u8) && ((245u8 ^ 225u8) == 20u8))) && ((((255u8 ^ 31u8) == 224u8) && ((0u8 ^ 32u8) == 32u8)) && (((64u8 ^ 175u8) == 239u8) && ((20u8 ^ 92u8) == 72u8)))) && (((((214u8 ^ 242u8) == 36u8) && ((231u8 ^ 193u8) == 38u8)) && (((15u8 ^ 200u8) == 199u8) && ((212u8 ^ 21u8) == 193u8))) && ((((46u8 ^ 62u8) == 16u8) && ((175u8 ^ 56u8) == 151u8)) && (((103u8 ^ 131u8) == 228u8) && (((28u8 ^ 85u8) == 73u8) && ((192u8 ^ 177u8) == 113u8))))))
}

#[verifier::opaque]
spec fn bytes_p_2_92() -> bool {
    (((((bit_of(156u8, 3) == 1u8) && ((223u8 ^ 91u8) == 132u8)) && (((143u8 ^ 94u8) == 209u8) && ((20u8 ^ 194u8) == 214u8))) && ((((224u8 ^ 63u8) == 223u8) && ((32u8 ^ 64u8) == 96u8)) && (((239u8 ^ 94u8) == 177u8) && ((72u8 ^ 185u8) == 241u8)))) && (((((36u8 ^ 228u8) == 192u8) && ((38u8 ^ 131u8) == 165u8)) && (((199u8 ^ 145u8) == 86u8) && ((193u8 ^ 43u8) == 234u8))) && ((((16u8 ^ 124u8) == 108u8) && ((151u8 ^ 112u8) == 231u8)) && (((228u8 ^ 6u8) == 226u8) && (((73u8 ^ 171u8) == 226u8) && ((113u8 ^ 98u8) == 19u8))))))
}

#[verifier::opaque]
spec fn bytes_p_2_93() -> bool {
    (((((bit_of(156u8, 4) == 1u8) && ((132u8 ^ 182u8) == 50u8)) && (((209u8 ^ 188u8) == 109u8) && ((214u8 ^ 132u8) == 82u8))) && ((((223u8 ^ 127u8) == 160u8) && ((96u8 ^ 128u8) == 224u8)) && (((177u8 ^ 188u8) == 13u8) && ((241u8 ^ 114u8) == 131u8)))) && (((((192u8 ^ 201u8) == 9u8) && ((165u8 ^ 7u8) == 162u8)) && (((86u8 ^ 35u8) == 117u8) && ((234u8 ^ 87u8) == 189u8))) && ((((108u8 ^ 248u8) == 148u8) && ((231u8 ^ 224u8) == 7u8)) && (((226u8 ^ 12u8) == 238u8) && (((226u8 ^ 86u8) == 180u8) && ((19u8 ^ 197u8) == 214u8))))))
}

#[verifier::opaque]
spec fn bytes_p_2_94() -> bool {
    (bit_of(156u8, 5) == 0u8)
}

#[verifier::opaque]
spec fn bytes_p_2_95() -> bool {
    (bit_of(156u8, 6) == 0u8)
}

#[verifier::opaque]
spec fn bytes_p_2_96() -> bool {
    (((((bit_of(156u8, 7) == 1u8) && ((50u8 ^ 162u8) == 144u8)) && (((109u8 ^ 230u8) == 139u8) && ((82u8 ^ 37u8) == 119u8))) && ((((160u8 ^ 252u8) == 92u8) && ((224u8 ^ 3u8) == 227u8)) && (((13u8 ^ 228u8) == 233u8) && ((131u8 ^ 149u8) == 22u8)))) && (((((9u8 ^ 75u8) == 66u8) && ((162u8 ^ 62u8) == 156u8)) && (((117u8 ^ 24u8) == 109u8) && ((189u8 ^ 185u8) == 4u8))) && ((((148u8 ^ 194u8) == 86u8) && ((7u8 ^ 7u8) == 0u8)) && (((238u8 ^ 103u8) == 137u8) && (((180u8 ^ 176u8) == 4u8) && ((214u8 ^ 42u8) == 252u8))))))
}

#[verifier::opaque]
spec fn bytes_p_2_97() -> bool {
    (((((bit_of(67u8, 0) == 1u8) && ((144u8 ^ 68u8) == 212u8)) && (((139u8 ^ 205u8) == 70u8) && ((119u8 ^ 75u8) == 60u8))) && ((((92u8 ^ 248u8) == 164u8) && ((227u8 ^ 7u8) == 228u8)) && (((233u8 ^ 200u8) == 33u8) && ((22u8 ^ 43u8) == 61u8)))) && (((((66u8 ^ 151u8) == 213u8) && ((156u8 ^ 124u8) == 224u8)) && (((109u8 ^ 48u8) == 93u8) && ((4u8 ^ 114u8) == 118u8))) && ((((86u8 ^ 133u8) == 211u8) && ((0u8 ^ 15u8) == 15u8)) && (((137u8 ^ 206u8) == 71u8) && (((4u8 ^ 96u8) == 100u8) && ((252u8 ^ 85u8) == 169u8))))))
}

#[verifier::opaque]
spec fn bytes_p_2_98() -> bool {
    (((((bit_of(67u8, 1) == 1u8) && ((212u8 ^ 136u8) == 92u8)) && (((70u8 ^ 154u8) == 220u8) && ((60u8 ^ 151u8) == 171u8))) && ((((164u8 ^ 240u8) == 84u8) && ((228u8 ^ 15u8) == 235u8)) && (((33u8 ^ 144u8) == 177u8) && ((61u8 ^ 87u8) == 106u8)))) && (((((213u8 ^ 46u8) == 251u8) && ((224u8 ^ 249u8) == 25u8)) && (((93u8 ^ 96u8) == 61u8) && ((118u8 ^ 228u8) == 146u8))) && ((((211u8 ^ 10u8) == 217u8) && ((15u8 ^ 31u8) == 16u8)) && (((71u8 ^ 156u8) == 219u8) && (((100u8 ^ 193u8) == 165u8) && ((169u8 ^ 170u8) == 3u8))))))
}

#[verifier::opaque]
spec fn bytes_p_2_99() -> bool {
    (bit_of(67u8, 2) == 0u8)
}

#[verifier::opaque]
spec fn bytes_p_2_100() -> bool {
    (bit_of(67u8, 3) == 0u8)
}

#[verifier::opaque]
spec fn bytes_p_2_101() -> bool {
    (bit_of(67u8, 4) == 0u8)
}

#[verifier::opaque]
spec fn bytes_p_2_102() -> bool {
    (bit_of(67u8, 5) == 0u8)
}

#[verifier::opaque]
spec fn bytes_p_2_103() -> bool {
    (((((bit_of(67u8, 6) == 1u8) && ((92u8 ^ 235u8) == 183u8)) && (((220u8 ^ 91u8) == 135u8) && ((171u8 ^ 243u8) == 88u8))) && ((((84u8 ^ 18u8) == 70u8) && ((235u8 ^ 254u8) == 21u8)) && (((177u8 ^ 1u8) == 176u8) && ((106u8 ^ 242u8) == 152u8)))) && (((((251u8 ^ 202u8) == 49u8) && ((25u8 ^ 37u8) == 60u8)) && (((61u8 ^ 31u8) == 34u8) && ((146u8 ^ 140u8) == 30u8))) && ((((217u8 ^ 92u8) == 133u8) && ((16u8 ^ 225u8) == 241u8)) && (((219u8 ^ 131u8) == 88u8) && (((165u8 ^ 51u8) == 150u8) && ((3u8 ^ 88u8) == 91u8))))))
}

#[verifier::opaque]
spec fn bytes_p_2_104() -> bool {
    (bit_of(67u8, 7) == 0u8)
}

#[verifier::opaque]
spec fn bytes_p_2_105() -> bool {
    (((((bit_of(183u8, 0) == 1u8) && ((183u8 ^ 43u8) == 156u8)) && (((135u8 ^ 111u8) == 232u8) && ((88u8 ^ 205u8) == 149u8))) && ((((70u8 ^ 75u8) == 13u8) && ((21u8 ^ 248u8) == 237u8)) && (((176u8 ^ 7u8) == 183u8) && ((152u8 ^ 200u8) == 80u8)))) && (((((49u8 ^ 43u8) == 26u8) && ((60u8 ^ 151u8) == 171u8)) && (((34u8 ^ 124u8) == 94u8) && ((30u8 ^ 48u8) == 46u8))) && ((((133u8 ^ 114u8) == 247u8) && ((241u8 ^ 133u8) == 116u8)) && (((88u8 ^ 15u8) == 87u8) && (((150u8 ^ 206u8) == 88u8) && ((91u8 ^ 96u8) == 59u8))))))
}

#[verifier::opaque]
spec fn bytes_p_2_106() -> bool {
    (((((bit_of(183u8, 1) == 1u8) && ((156u8 ^ 86u8) == 202u8)) && (((232u8 ^ 222u8) == 54u8) && ((149u8 ^ 154u8) == 15u8))) && ((((13u8 ^ 151u8) == 154u8) && ((237u8 ^ 240u8) == 29u8)) && (((183u8 ^ 15u8) == 184u8) && ((80u8 ^ 144u8) == 192u8)))) && (((((26u8 ^ 87u8) == 77u8) && ((171u8 ^ 46u8) == 133u8)) && (((94u8 ^ 249u8) == 167u8) && ((46u8 ^ 96u8) == 78u8))) && ((((247u8 ^ 228u8) == 19u8) && ((116u8 ^ 10u8) == 126u8)) && (((87u8 ^ 31u8) == 72u8) && (((88u8 ^ 156u8) == 196u8) && ((59u8 ^ 193u8) == 250u8))))))
}

#[verifier::opaque]
spec fn bytes_p_2_107() -> bool {
    (((((bit_of(183u8, 2) == 1u8) && ((202u8 ^ 43u8) == 225u8)) && (((54u8 ^ 188u8) == 138u8) && ((15u8 ^ 53u8) == 58u8))) && ((((154u8 ^ 47u8) == 181u8) && ((29u8 ^ 225u8) == 252u8)) && (((184u8 ^ 31u8) == 167u8) && ((192u8 ^ 32u8) == 224u8)))) && (((((77u8 ^ 175u8) == 226u8) && ((133u8 ^ 92u8) == 217u8)) && (((167u8 ^ 242u8) == 85u8) && ((78u8 ^ 193u8) == 143u8))) && ((((19u8 ^ 200u8) == 219u8) && ((126u8 ^ 21u8) == 107u8)) && (((72u8 ^ 62u8) == 118u8) && (((196u8 ^ 56u8) == 252u8) && ((250u8 ^ 131u8) == 121u8))))))
}

#[verifier::opaque]
spec fn bytes_p_2_108() -> bool {
    (bit_of(183u8, 3) == 0u8)
}

#[verifier::opaque]
spec fn bytes_p_2_109() -> bool {
    (((((bit_of(183u8, 4) == 1u8) && ((225u8 ^ 162u8) == 67u8)) && (((138u8 ^ 241u8) == 123u8) && ((58u8 ^ 214u8) == 236u8))) && ((((181u8 ^ 188u8) == 9u8) && ((252u8 ^ 132u8) == 120u8)) && (((167u8 ^ 127u8) == 216u8) && ((224u8 ^ 128u8) == 96u8)))) && (((((226u8 ^ 188u8) == 94u8) && ((217u8 ^ 114u8) == 171u8)) && (((85u8 ^ 201u8) == 156u8) && ((143u8 ^ 7u8) == 136u8))) && ((((219u8 ^ 35u8) == 248u8) && ((107u8 ^ 87u8) == 60u8)) && (((118u8 ^ 248u8) == 142u8) && (((252u8 ^ 224u8) == 28u8) && ((121u8 ^ 12u8) == 117u8))))))
}

#[verifier::opaque]
spec fn bytes_p_2_110() -> bool {
    (((((bit_of(183u8, 5) == 1u8) && ((67u8 ^ 68u8) == 7u8)) && (((123u8 ^ 227u8) == 152u8) && ((236u8 ^ 173u8) == 65u8))) && ((((9u8 ^ 121u8) == 112u8) && ((120u8 ^ 9u8) == 113u8)) && (((216u8 ^ 255u8) == 39u8) && ((96u8 ^ 0u8) == 96u8)))) && (((((94u8 ^ 121u8) == 39u8) && ((171u8 ^ 229u8) == 78u8)) && (((156u8 ^ 146u8) == 14u8) && ((136u8 ^ 15u8) == 135u8))) && ((((248u8 ^ 70u8) == 190u8) && ((60u8 ^ 174u8) == 146u8)) && (((142u8 ^ 240u8) == 126u8) && (((28u8 ^ 193u8) == 221u8) && ((117u8 ^ 25u8) == 108u8))))))
}

#[verifier::opaque]
spec fn bytes_p_2_111() -> bool {
    (bit_of(183u8, 6) == 0u8)
}

#[verifier::opaque]
spec fn bytes_p_2_112() -> bool {
    (((((bit_of(183u8, 7) == 1u8) && ((7u8 ^ 16u8) == 23u8)) && (((152u8 ^ 141u8) == 21u8) && ((65u8 ^ 183u8) == 246u8))) && ((((112u8 ^ 230u8) == 150u8) && ((113u8 ^ 37u8) == 84u8)) && (((39u8 ^ 252u8) == 219u8) && ((96u8 ^ 3u8) == 99u8)))) && (((((39u8 ^ 228u8) == 195u8) && ((78u8 ^ 149u8) == 219u8)) && (((14u8 ^ 75u8) == 69u8) && ((135u8 ^ 62u8) == 185u8))) && ((((190u8 ^ 24u8) == 166u8) && ((146u8 ^ 185u8) == 43u8)) && (((126u8 ^ 194u8) == 188u8) && (((221u8 ^ 7u8) == 218u8) && ((108u8 ^ 103u8) == 11u8))))))
}

#[verifier::opaque]
spec fn bytes_p_2_113() -> bool {
    (bit_of(244u8, 0) == 0u8)
}

#[verifier::opaque]
spec fn bytes_p_2_114() -> bool {
    (bit_of(244u8, 1) == 0u8)
}

#[verifier::opaque]
spec fn bytes_p_2_115() -> bool {
    (((((bit_of(244u8, 2) == 1u8) && ((23u8 ^ 9u8) == 30u8)) && (((21u8 ^ 105u8) == 124u8) && ((246u8 ^ 188u8) == 74u8))) && ((((150u8 ^ 53u8) == 163u8) && ((84u8 ^ 47u8) == 123u8)) && (((219u8 ^ 225u8) == 58u8) && ((99u8 ^ 31u8) == 124u8)))) && (((((195u8 ^ 32u8) == 227u8) && ((219u8 ^ 175u8) == 116u8)) && (((69u8 ^ 92u8) == 25u8) && ((185u8 ^ 242u8) == 75u8))) && ((((166u8 ^ 193u8) == 103u8) && ((43u8 ^ 200u8) == 227u8)) && (((188u8 ^ 21u8) == 169u8) && (((218u8 ^ 62u8) == 228u8) && ((11u8 ^ 56u8) == 51u8))))))
}

#[verifier::opaque]
spec fn bytes_p_2_116() -> bool {
    (bit_of(244u8, 3) == 0u8)
}

#[verifier::opaque]
spec fn bytes_p_2_117() -> bool {
    (((((bit_of(244u8, 4) == 1u8) && ((30u8 ^ 36u8) == 58u8)) && (((124u8 ^ 164u8) == 216u8) && ((74u8 ^ 241u8) == 187u8))) && ((((163u8 ^ 214u8) == 117u8) && ((123u8 ^ 188u8) == 199u8)) && (((58u8 ^ 132u8) == 190u8) && ((124u8 ^ 127u8) == 3u8)))) && (((((227u8 ^ 128u8) == 99u8) && ((116u8 ^ 188u8) == 200u8)) && (((25u8 ^ 114u8) == 107u8) && ((75u8 ^ 201u8) == 130u8))) && ((((103u8 ^ 7u8) == 96u8) && ((227u8 ^ 35u8) == 192u8)) && (((169u8 ^ 87u8) == 254u8) && (((228u8 ^ 248u8) == 28u8) && ((51u8 ^ 224u8) == 211u8))))))
}

#[verifier::opaque]
spec fn bytes_p_2_118() -> bool {
    (((((bit_of(244u8, 5) == 1u8) && ((58u8 ^ 207u8) == 245u8)) && (((216u8 ^ 72u8) == 144u8) && ((187u8 ^ 227u8) == 88u8))) && ((((117u8 ^ 173u8) == 216u8) && ((199u8 ^ 121u8) == 190u8)) && (((190u8 ^ 9u8) == 183u8) && ((3u8 ^ 255u8) == 252u8)))) && (((((99u8 ^ 0u8) == 99u8) && ((200u8 ^ 121u8) == 177u8)) && (((107u8 ^ 229u8) == 142u8) && ((130u8 ^ 146u8) == 16u8))) && ((((96u8 ^ 15u8) == 111u8) && ((192u8 ^ 70u8) == 134u8)) && (((254u8 ^ 174u8) == 80u8) && (((28u8 ^ 240u8) == 236u8) && ((211u8 ^ 193u8) == 18u8))))))
}

#[verifier::opaque]
spec fn bytes_p_2_119() -> bool {
    (((((bit_of(244u8, 6) == 1u8) && ((245u8 ^ 25u8) == 236u8)) && (((144u8 ^ 145u8) == 1u8) && ((88u8 ^ 198u8) == 158u8))) && ((((216u8 ^ 91u8) == 131u8) && ((190u8 ^ 243u8) == 77u8)) && (((183u8 ^ 18u8) == 165u8) && ((252u8 ^ 254u8) == 2u8)))) && (((((99u8 ^ 1u8) == 98u8) && ((177u8 ^ 242u8) == 67u8)) && (((142u8 ^ 202u8) == 68u8) && ((16u8 ^ 37u8) == 53u8))) && ((((111u8 ^ 31u8) == 112u8) && ((134u8 ^ 140u8) == 10u8)) && (((80u8 ^ 92u8) == 12u8) && (((236u8 ^ 225u8) == 13u8) && ((18u8 ^ 131u8) == 145u8))))))
}

#[verifier::opaque]
spec fn bytes_p_2_120() -> bool {
    (((((bit_of(244u8, 7) == 1u8) && ((236u8 ^ 181u8) == 89u8)) && (((1u8 ^ 34u8) == 35u8) && ((158u8 ^ 141u8) == 19u8))) && ((((131u8 ^ 183u8) == 52u8) && ((77u8 ^ 230u8) == 171u8)) && (((165u8 ^ 37u8) == 128u8) && ((2u8 ^ 252u8) == 254u8)))) && (((((98u8 ^ 3u8) == 97u8) && ((67u8 ^ 228u8) == 167u8)) && (((68u8 ^ 149u8) == 209u8) && ((53u8 ^ 75u8) == 126u8))) && ((((112u8 ^ 62u8) == 78u8) && ((10u8 ^ 24u8) == 18u8)) && (((12u8 ^ 185u8) == 181u8) && (((13u8 ^ 194u8) == 207u8) && ((145u8 ^ 7u8) == 150u8))))))
}

#[verifier::opaque]
spec fn bytes_p_2_121() -> bool {
    (bit_of(76u8, 0) == 0u8)
}

#[verifier::opaque]
spec fn bytes_p_2_122() -> bool {
    (bit_of(76u8, 1) == 0u8)
}

#[verifier::opaque]
spec fn bytes_p_2_123() -> bool {
    (((((bit_of(76u8, 2) == 1u8) && ((89u8 ^ 168u8) == 241u8)) && (((35u8 ^ 21u8) == 54u8) && ((19u8 ^ 105u8) == 122u8))) && ((((52u8 ^ 188u8) == 136u8) && ((171u8 ^ 53u8) == 158u8)) && (((128u8 ^ 47u8) == 175u8) && ((254u8 ^ 225u8) == 31u8)))) && (((((97u8 ^ 31u8) == 126u8) && ((167u8 ^ 32u8) == 135u8)) && (((209u8 ^ 175u8) == 126u8) && ((126u8 ^ 92u8) == 34u8))) && ((((78u8 ^ 242u8) == 188u8) && ((18u8 ^ 193u8) == 211u8)) && (((181u8 ^ 200u8) == 125u8) && (((207u8 ^ 21u8) == 218u8) && ((150u8 ^ 62u8) == 168u8))))))
}

#[verifier::opaque]
spec fn bytes_p_2_124() -> bool {
    (((((bit_of(76u8, 3) == 1u8) && ((241u8 ^ 80u8) == 161u8)) && (((54u8 ^ 43u8) == 29u8) && ((122u8 ^ 210u8) == 168u8))) && ((((136u8 ^ 120u8) == 240u8) && ((158u8 ^ 107u8) == 245u8)) && (((175u8 ^ 94u8) == 241u8) && ((31u8 ^ 194u8) == 221u8)))) && (((((126u8 ^ 63u8) == 65u8) && ((135u8 ^ 64u8) == 199u8)) && (((126u8 ^ 94u8) == 32u8) && ((34u8 ^ 185u8) == 155u8))) && ((((188u8 ^ 228u8) == 88u8) && ((211u8 ^ 131u8) == 80u8)) && (((125u8 ^ 145u8) == 236u8) && (((218u8 ^ 43u8) == 241u8) && ((168u8 ^ 124u8) == 212u8))))))
}

#[verifier::opaque]
spec fn bytes_p_2_125() -> bool {
    (bit_of(76u8, 4) == 0u8)
}

#[verifier::opaque]
spec fn bytes_p_2_126() -> bool {
    (bit_of(76u8, 5) == 0u8)
}

#[verifier::opaque]
spec fn bytes_p_2_127() -> bool {
    (((((bit_of(76u8, 6) == 1u8) && ((161u8 ^ 9u8) == 168u8)) && (((29u8 ^ 91u8) == 70u8) && ((168u8 ^ 145u8) == 57u8))) && ((((240u8 ^ 198u8) == 54u8) && ((245u8 ^ 91u8) == 174u8)) && (((241u8 ^ 243u8) == 2u8) && ((221u8 ^ 18u8) == 207u8)))) && (((((65u8 ^ 254u8) == 191u8) && ((199u8 ^ 1u8) == 198u8)) && (((32u8 ^ 242u8) == 210u8) && ((155u8 ^ 202u8) == 81u8))) && ((((88u8 ^ 37u8) == 125u8) && ((80u8 ^ 31u8) == 79u8)) && (((236u8 ^ 140u8) == 96u8) && (((241u8 ^ 92u8) == 173u8) && ((212u8 ^ 225u8) == 53u8))))))
}

#[verifier::opaque]
spec fn bytes_p_2_128() -> bool {
    (bit_of(76u8, 7) == 0u8)
}

#[verifier::opaque]
spec fn bytes_p_3_1() -> bool {
    (bit_of(168u8, 0) == 0u8)
}

#[verifier::opaque]
spec fn bytes_p_3_2() -> bool {
    (bit_of(168u8, 1) == 0u8)
}

#[verifier::opaque]
spec fn bytes_p_3_3() -> bool {
    (bit_of(168u8, 2) == 0u8)
}

#[verifier::opaque]
spec fn bytes_p_3_4() -> bool {
    (((((bit_of(168u8, 3) == 1u8) && ((0u8 ^ 104u8) == 104u8)) && (((0u8 ^ 112u8) == 112u8) && ((0u8 ^ 6u8) == 6u8))) && ((((0u8 ^ 171u8) == 171u8) && ((0u8 ^ 98u8) == 98u8)) && (((0u8 ^ 69u8) == 69u8) && ((0u8 ^ 255u8) == 255u8)))) && (((((0u8 ^ 9u8) == 9u8) && ((0u8 ^ 229u8) == 229u8)) && (((0u8 ^ 208u8) == 208u8) && ((0u8 ^ 188u8) == 188u8))) && ((((0u8 ^ 76u8) == 76u8) && ((0u8 ^ 173u8) == 173u8)) && (((0u8 ^ 42u8) == 42u8) && (((0u8 ^ 236u8) == 236u8) && ((0u8 ^ 41u8) == 41u8))))))
}

#[verifier::opaque]
spec fn bytes_p_3_5() -> bool {
    (bit_of(168u8, 4) == 0u8)
}

#[verifier::opaque]
spec fn bytes_p_3_6() -> bool {
    (((((bit_of(168u8, 5) == 1u8) && ((104u8 ^ 160u8) == 200u8)) && (((112u8 ^ 193u8) == 177u8) && ((6u8 ^ 25u8) == 31u8))) && ((((171u8 ^ 172u8) == 7u8) && ((98u8 ^ 138u8) == 232u8)) && (((69u8 ^ 21u8) == 80u8) && ((255u8 ^ 253u8) == 2u8)))) && (((((9u8 ^ 39u8) == 46u8) && ((229u8 ^ 148u8) == 113u8)) && (((208u8 ^ 67u8) == 147u8) && ((188u8 ^ 243u8) == 79u8))) && ((((76u8 ^ 50u8) == 126u8) && ((173u8 ^ 181u8) == 24u8)) && (((42u8 ^ 170u8) == 128u8) && (((236u8 ^ 176u8) == 92u8) && ((41u8 ^ 167u8) == 142u8))))))
}

#[verifier::opaque]
spec fn bytes_p_3_7() -> bool {
    (bit_of(168u8, 6) == 0u8)
}

#[verifier::opaque]
spec fn bytes_p_3_8() -> bool {
    (((((bit_of(168u8, 7) == 1u8) && ((200u8 ^ 142u8) == 70u8)) && (((177u8 ^ 7u8) == 182u8) && ((31u8 ^ 103u8) == 120u8))) && ((((7u8 ^ 176u8) == 183u8) && ((232u8 ^ 42u8) == 194u8)) && (((80u8 ^ 86u8) == 6u8) && ((2u8 ^ 244u8) == 246u8)))) && (((((46u8 ^ 159u8) == 177u8) && ((113u8 ^ 80u8) == 33u8)) && (((147u8 ^ 14u8) == 157u8) && ((79u8 ^ 205u8) == 130u8))) && ((((126u8 ^ 203u8) == 181u8) && ((24u8 ^ 212u8) == 204u8)) && (((128u8 ^ 170u8) == 42u8) && (((92u8 ^ 194u8) == 158u8) && ((142u8 ^ 158u8) == 16u8))))))
}

#[verifier::opaque]
spec fn bytes_p_3_9() -> bool {
    (bit_of(70u8, 0) == 0u8)
}

#[verifier::opaque]
spec fn bytes_p_3_10() -> bool {
    (((((bit_of(70u8, 1) == 1u8) && ((70u8 ^ 54u8) == 112u8)) && (((182u8 ^ 31u8) == 169u8) && ((120u8 ^ 156u8) == 228u8))) && ((((183u8 ^ 193u8) == 118u8) && ((194u8 ^ 170u8) == 104u8)) && (((6u8 ^ 88u8) == 94u8) && ((246u8 ^ 209u8) == 39u8)))) && (((((177u8 ^ 127u8) == 206u8) && ((33u8 ^ 66u8) == 99u8)) && (((157u8 ^ 57u8) == 164u8) && ((130u8 ^ 52u8) == 182u8))) && ((((181u8 ^ 47u8) == 154u8) && ((204u8 ^ 83u8) == 159u8)) && (((42u8 ^ 171u8) == 129u8) && (((158u8 ^ 10u8) == 148u8) && ((16u8 ^ 123u8) == 107u8))))))
}

#[verifier::opaque]
spec fn bytes_p_3_11() -> bool {
    (((((bit_of(70u8, 2) == 1u8) && ((112u8 ^ 108u8) == 28u8)) && (((169u8 ^ 62u8) == 151u8) && ((228u8 ^ 56u8) == 220u8))) && ((((118u8 ^ 131u8) == 245u8) && ((104u8 ^ 85u8) == 61u8)) && (((94u8 ^ 177u8) == 239u8) && ((39u8 ^ 162u8) == 133u8)))) && (((((206u8 ^ 255u8) == 49u8) && ((99u8 ^ 132u8) == 231u8)) && (((164u8 ^ 114u8) == 214u8) && ((182u8 ^ 104u8) == 222u8))) && ((((154u8 ^ 94u8) == 196u8) && ((159u8 ^ 166u8) == 57u8)) && (((129u8 ^ 86u8) == 215u8) && (((148u8 ^ 21u8) == 129u8) && ((107u8 ^ 246u8) == 157u8))))))
}

#[verifier::opaque]
spec fn bytes_p_3_12() -> bool {
    (bit_of(70u8, 3) == 0u8)
}

#[verifier::opaque]
spec fn bytes_p_3_13() -> bool {
    (bit_of(70u8, 4) == 0u8)
}

#[verifier::opaque]
spec fn bytes_p_3_14() -> bool {
    (bit_of(70u8, 5) == 0u8)
}

#[verifier::opaque]
spec fn bytes_p_3_15() -> bool {
    (((((bit_of(70u8, 6) == 1u8) && ((28u8 ^ 109u8) == 113u8)) && (((151u8 ^ 225u8) == 118u8) && ((220u8 ^ 131u8) == 95u8))) && ((((245u8 ^ 51u8) == 198u8) && ((61u8 ^ 88u8) == 101u8)) && (((239u8 ^ 21u8) == 250u8) && ((133u8 ^ 43u8) == 174u8)))) && (((((49u8 ^ 250u8) == 203u8) && ((231u8 ^ 79u8) == 168u8)) && (((214u8 ^ 40u8) == 254u8) && ((222u8 ^ 135u8) == 89u8))) && ((((196u8 ^ 230u8) == 34u8) && ((57u8 ^ 101u8) == 92u8)) && (((215u8 ^ 106u8) == 189u8) && (((129u8 ^ 85u8) == 212u8) && ((157u8 ^ 97u8) == 252u8))))))
}

#[verifier::opaque]
spec fn bytes_p_3_16() -> bool {
    (bit_of(70u8, 7) == 0u8)
}

#[verifier::opaque]
spec fn bytes_p_3_17() -> bool {
    (((((bit_of(57u8, 0) == 1u8) && ((113u8 ^ 51u8) == 66u8)) && (((118u8 ^ 133u8) == 243u8) && ((95u8 ^ 15u8) == 80u8))) && ((((198u8 ^ 206u8) == 8u8) && ((101u8 ^ 96u8) == 5u8)) && (((250u8 ^ 85u8) == 175u8) && ((174u8 ^ 172u8) == 2u8)))) && (((((203u8 ^ 232u8) == 35u8) && ((168u8 ^ 63u8) == 151u8)) && (((254u8 ^ 161u8) == 95u8) && ((89u8 ^ 28u8) == 69u8))) && ((((34u8 ^ 154u8) == 184u8) && ((92u8 ^ 151u8) == 203u8)) && (((189u8 ^ 169u8) == 20u8) && (((212u8 ^ 85u8) == 129u8) && ((252u8 ^ 133u8) == 121u8))))))
}

#[verifier::opaque]
spec fn bytes_p_3_18() -> bool {
    (bit_of(57u8, 1) == 0u8)
}

#[verifier::opaque]
spec fn bytes_p_3_19() -> bool {
    (bit_of(57u8, 2) == 0u8)
}

#[verifier::opaque]
spec fn bytes_p_3_20() -> bool {
    (((((bit_of(57u8, 3) == 1u8) && ((66u8 ^ 132u8) == 198u8)) && (((243u8 ^ 43u8) == 216u8) && ((80u8 ^ 124u8) == 44u8))) && ((((8u8 ^ 112u8) == 120u8) && ((5u8 ^ 6u8) == 3u8)) && (((175u8 ^ 171u8) == 4u8) && ((2u8 ^ 98u8) == 96u8)))) && (((((35u8 ^ 69u8) == 102u8) && ((151u8 ^ 255u8) == 104u8)) && (((95u8 ^ 9u8) == 86u8) && ((69u8 ^ 229u8) == 160u8))) && ((((184u8 ^ 208u8) == 104u8) && ((203u8 ^ 188u8) == 119u8)) && (((20u8 ^ 76u8) == 88u8) && (((129u8 ^ 173u8) == 44u8) && ((121u8 ^ 42u8) == 83u8))))))
}

#[verifier::opaque]
spec fn bytes_p_3_21() -> bool {
    (((((bit_of(57u8, 4) == 1u8) && ((198u8 ^ 8u8) == 206u8)) && (((216u8 ^ 87u8) == 143u8) && ((44u8 ^ 248u8) == 212u8))) && ((((120u8 ^ 224u8) == 152u8) && ((3u8 ^ 12u8) == 15u8)) && (((4u8 ^ 86u8) == 82u8) && ((96u8 ^ 197u8) == 165u8)))) && (((((102u8 ^ 138u8) == 236u8) && ((104u8 ^ 254u8) == 150u8)) && (((86u8 ^ 19u8) == 69u8) && ((160u8 ^ 202u8) == 106u8))) && ((((104u8 ^ 161u8) == 201u8) && ((119u8 ^ 121u8) == 14u8)) && (((88u8 ^ 153u8) == 193u8) && (((44u8 ^ 90u8) == 118u8) && ((83u8 ^ 85u8) == 6u8))))))
}

#[verifier::opaque]
spec fn bytes_p_3_22() -> bool {
    (((((bit_of(57u8, 5) == 1u8) && ((206u8 ^ 16u8) == 222u8)) && (((143u8 ^ 174u8) == 33u8) && ((212u8 ^ 240u8) == 36u8))) && ((((152u8 ^ 193u8) == 89u8) && ((15u8 ^ 25u8) == 22u8)) && (((82u8 ^ 172u8) == 254u8) && ((165u8 ^ 138u8) == 47u8)))) && (((((236u8 ^ 21u8) == 249u8) && ((150u8 ^ 253u8) == 107u8)) && (((69u8 ^ 39u8) == 98u8) && ((106u8 ^ 148u8) == 254u8))) && ((((201u8 ^ 67u8) == 138u8) && ((14u8 ^ 243u8) == 253u8)) && (((193u8 ^ 50u8) == 243u8) && (((118u8 ^ 181u8) == 195u8) && ((6u8 ^ 170u8) == 172u8))))))
}

#[verifier::opaque]
spec fn bytes_p_3_23() -> bool {
    (bit_of(57u8, 6) == 0u8)
}

#[verifier::opaque]
spec fn bytes_p_3_24() -> bool {
    (bit_of(57u8, 7) == 0u8)
}

#[verifier::opaque]
spec fn bytes_p_3_25() -> bool {
    (bit_of(54u8, 0) == 0u8)
}

#[verifier::opaque]
spec fn bytes_p_3_26() -> bool {
    (((((bit_of(54u8, 1) == 1u8) && ((222u8 ^ 54u8) == 232u8)) && (((33u8 ^ 228u8) == 197u8) && ((36u8 ^ 10u8) == 46u8))) && ((((89u8 ^ 31u8) == 70u8) && ((22u8 ^ 156u8) == 138u8)) && (((254u8 ^ 193u8) == 63u8) && ((47u8 ^ 170u8) == 133u8)))) && (((((249u8 ^ 88u8) == 161u8) && ((107u8 ^ 209u8) == 186u8)) && (((98u8 ^ 127u8) == 29u8) && ((254u8 ^ 66u8) == 188u8))) && ((((138u8 ^ 57u8) == 179u8) && ((253u8 ^ 52u8) == 201u8)) && (((243u8 ^ 47u8) == 220u8) && (((195u8 ^ 83u8) == 144u8) && ((172u8 ^ 171u8) == 7u8))))))
}

#[verifier::opaque]
spec fn bytes_p_3_27() -> bool {
    (((((bit_of(54u8, 2) == 1u8) && ((232u8 ^ 235u8) == 3u8)) && (((197u8 ^ 200u8) == 13u8) && ((46u8 ^ 21u8) == 59u8))) && ((((70u8 ^ 62u8) == 120u8) && ((138u8 ^ 56u8) == 178u8)) && (((63u8 ^ 131u8) == 188u8) && ((133u8 ^ 85u8) == 208u8)))) && (((((161u8 ^ 177u8) == 16u8) && ((186u8 ^ 162u8) == 24u8)) && (((29u8 ^ 255u8) == 226u8) && ((188u8 ^ 132u8) == 56u8))) && ((((179u8 ^ 114u8) == 193u8) && ((201u8 ^ 104u8) == 161u8)) && (((220u8 ^ 94u8) == 130u8) && (((144u8 ^ 166u8) == 54u8) && ((7u8 ^ 86u8) == 81u8))))))
}

#[verifier::opaque]
spec fn bytes_p_3_28() -> bool {
    (bit_of(54u8, 3) == 0u8)
}

#[verifier::opaque]
spec fn bytes_p_3_29() -> bool {
    (((((bit_of(54u8, 4) == 1u8) && ((3u8 ^ 43u8) == 40u8)) && (((13u8 ^ 35u8) == 46u8) && ((59u8 ^ 87u8) == 108u8))) && ((((120u8 ^ 248u8) == 128u8) && ((178u8 ^ 224u8) == 82u8)) && (((188u8 ^ 12u8) == 176u8) && ((208u8 ^ 86u8) == 134u8)))) && (((((16u8 ^ 197u8) == 213u8) && ((24u8 ^ 138u8) == 146u8)) && (((226u8 ^ 254u8) == 28u8) && ((56u8 ^ 19u8) == 43u8))) && ((((193u8 ^ 202u8) == 11u8) && ((161u8 ^ 161u8) == 0u8)) && (((130u8 ^ 121u8) == 251u8) && (((54u8 ^ 153u8) == 175u8) && ((81u8 ^ 90u8) == 11u8))))))
}

#[verifier::opaque]
spec fn bytes_p_3_30() -> bool {
    (((((bit_of(54u8, 5) == 1u8) && ((40u8 ^ 86u8) == 126u8)) && (((46u8 ^ 70u8) == 104u8) && ((108u8 ^ 174u8) == 194u8))) && ((((128u8 ^ 240u8) == 112u8) && ((82u8 ^ 193u8) == 147u8)) && (((176u8 ^ 25u8) == 169u8) && ((134u8 ^ 172u8) == 42u8)))) && (((((213u8 ^ 138u8) == 95u8) && ((146u8 ^ 21u8) == 135u8)) && (((28u8 ^ 253u8) == 225u8) && ((43u8 ^ 39u8) == 12u8))) && ((((11u8 ^ 148u8) == 159u8) && ((0u8 ^ 67u8) == 67u8)) && (((251u8 ^ 243u8) == 8u8) && (((175u8 ^ 50u8) == 157u8) && ((11u8 ^ 181u8) == 190u8))))))
}

#[verifier::opaque]
spec fn bytes_p_3_31() -> bool {
    (bit_of(54u8, 6) == 0u8)
}

#[verifier::opaque]
spec fn bytes_p_3_32() -> bool {
    (bit_of(54u8, 7) == 0u8)
}

#[verifier::opaque]
spec fn bytes_p_3_33() -> bool {
    (bit_of(174u8, 0) == 0u8)
}

#[verifier::opaque]
spec fn bytes_p_3_34() -> bool {
    (((((bit_of(174u8, 1) == 1u8) && ((126u8 ^ 209u8) == 175u8)) && (((104u8 ^ 96u8) == 8u8) && ((194u8 ^ 228u8) == 38u8))) && ((((112u8 ^ 10u8) == 122u8) && ((147u8 ^ 31u8) == 140u8)) && (((169u8 ^ 156u8) == 53u8) && ((42u8 ^ 193u8) == 235u8)))) && (((((95u8 ^ 170u8) == 245u8) && ((135u8 ^ 88u8) == 223u8)) && (((225u8 ^ 209u8) == 48u8) && ((12u8 ^ 127u8) == 115u8))) && ((((159u8 ^ 66u8) == 221u8) && ((67u8 ^ 57u8) == 122u8)) && (((8u8 ^ 52u8) == 60u8) && (((157u8 ^ 47u8) == 178u8) && ((190u8 ^ 83u8) == 237u8))))))
}

#[verifier::opaque]
spec fn bytes_p_3_35() -> bool {
    (((((bit_of(174u8, 2) == 1u8) && ((175u8 ^ 162u8) == 13u8)) && (((8u8 ^ 193u8) == 201u8) && ((38u8 ^ 200u8) == 238u8))) && ((((122u8 ^ 21u8) == 111u8) && ((140u8 ^ 62u8) == 178u8)) && (((53u8 ^ 56u8) == 13u8) && ((235u8 ^ 131u8) == 104u8)))) && (((((245u8 ^ 85u8) == 160u8) && ((223u8 ^ 177u8) == 110u8)) && (((48u8 ^ 162u8) == 146u8) && ((115u8 ^ 255u8) == 140u8))) && ((((221u8 ^ 132u8) == 89u8) && ((122u8 ^ 114u8) == 8u8)) && (((60u8 ^ 104u8) == 84u8) && (((178u8 ^ 94u8) == 236u8) && ((237u8 ^ 166u8) == 75u8))))))
}

#[verifier::opaque]
spec fn bytes_p_3_36() -> bool {
    (((((bit_of(174u8, 3) == 1u8) && ((13u8 ^ 195u8) == 206u8)) && (((201u8 ^ 131u8) == 74u8) && ((238u8 ^ 145u8) == 127u8))) && ((((111u8 ^ 43u8) == 68u8) && ((178u8 ^ 124u8) == 206u8)) && (((13u8 ^ 112u8) == 125u8) && ((104u8 ^ 6u8) == 110u8)))) && (((((160u8 ^ 171u8) == 11u8) && ((110u8 ^ 98u8) == 12u8)) && (((146u8 ^ 69u8) == 215u8) && ((140u8 ^ 255u8) == 115u8))) && ((((89u8 ^ 9u8) == 80u8) && ((8u8 ^ 229u8) == 237u8)) && (((84u8 ^ 208u8) == 132u8) && (((236u8 ^ 188u8) == 80u8) && ((75u8 ^ 76u8) == 7u8))))))
}

#[verifier::opaque]
spec fn bytes_p_3_37() -> bool {
    (bit_of(174u8, 4) == 0u8)
}

#[verifier::opaque]
spec fn bytes_p_3_38() -> bool {
    (((((bit_of(174u8, 5) == 1u8) && ((206u8 ^ 139u8) == 69u8)) && (((74u8 ^ 15u8) == 69u8) && ((127u8 ^ 70u8) == 57u8))) && ((((68u8 ^ 174u8) == 234u8) && ((206u8 ^ 240u8) == 62u8)) && (((125u8 ^ 193u8) == 188u8) && ((110u8 ^ 25u8) == 119u8)))) && (((((11u8 ^ 172u8) == 167u8) && ((12u8 ^ 138u8) == 134u8)) && (((215u8 ^ 21u8) == 194u8) && ((115u8 ^ 253u8) == 142u8))) && ((((80u8 ^ 39u8) == 119u8) && ((237u8 ^ 148u8) == 121u8)) && (((132u8 ^ 67u8) == 199u8) && (((80u8 ^ 243u8) == 163u8) && ((7u8 ^ 50u8) == 53u8))))))
}

#[verifier::opaque]
spec fn bytes_p_3_39() -> bool {
    (bit_of(174u8, 6) == 0u8)
}

#[verifier::opaque]
spec fn bytes_p_3_40() -> bool {
    (((((bit_of(174u8, 7) == 1u8) && ((69u8 ^ 44u8) == 105u8)) && (((69u8 ^ 62u8) == 123u8) && ((57u8 ^ 24u8) == 33u8))) && ((((234u8 ^ 185u8) == 83u8) && ((62u8 ^ 194u8) == 252u8)) && (((188u8 ^ 7u8) == 187u8) && ((119u8 ^ 103u8) == 16u8)))) && (((((167u8 ^ 176u8) == 23u8) && ((134u8 ^ 42u8) == 172u8)) && (((194u8 ^ 86u8) == 148u8) && ((142u8 ^ 244u8) == 122u8))) && ((((119u8 ^ 159u8) == 232u8) && ((121u8 ^ 80u8) == 41u8)) && (((199u8 ^ 14u8) == 201u8) && (((163u8 ^ 205u8) == 110u8) && ((53u8 ^ 203u8) == 254u8))))))
}

#[verifier::opaque]
spec fn bytes_p_3_41() -> bool {
    (bit_of(2u8, 0) == 0u8)
}

#[verifier::opaque]
spec fn bytes_p_3_42() -> bool {
    (((((bit_of(2u8, 1) == 1u8) && ((105u8 ^ 57u8) == 80u8)) && (((123u8 ^ 249u8) == 130u8) && ((33u8 ^ 96u8) == 65u8))) && ((((83u8 ^ 228u8) == 183u8) && ((252u8 ^ 10u8) == 246u8)) && (((187u8 ^ 31u8) == 164u8) && ((16u8 ^ 156u8) == 140u8)))) && (((((23u8 ^ 193u8) == 214u8) && ((172u8 ^ 170u8) == 6u8)) && (((148u8 ^ 88u8) == 204u8) && ((122u8 ^ 209u8) == 171u8))) && ((((232u8 ^ 127u8) == 151u8) && ((41u8 ^ 66u8) == 107u8)) && (((201u8 ^ 57u8) == 240u8) && (((110u8 ^ 52u8) == 90u8) && ((254u8 ^ 47u8) == 209u8))))))
}

#[verifier::opaque]
spec fn bytes_p_3_43() -> bool {
    (bit_of(2u8, 2) == 0u8)
}

#[verifier::opaque]
spec fn bytes_p_3_44() -> bool {
    (bit_of(2u8, 3) == 0u8)
}

#[verifier::opaque]
spec fn bytes_p_3_45() -> bool {
    (bit_of(2u8, 4) == 0u8)
}

#[verifier::opaque]
spec fn bytes_p_3_46() -> bool {
    (bit_of(2u8, 5) == 0u8)
}

#[verifier::opaque]
spec fn bytes_p_3_47() -> bool {
    (bit_of(2u8, 6) == 0u8)
}

#[verifier::opaque]
spec fn bytes_p_3_48() -> bool {
    (bit_of(2u8, 7) == 0u8)
}

#[verifier::opaque]
spec fn bytes_p_3_49() -> bool {
    (((((bit_of(207u8, 0) == 1u8) && ((80u8 ^ 101u8) == 53u8)) && (((130u8 ^ 151u8) == 21u8) && ((65u8 ^ 124u8) == 61u8))) && ((((183u8 ^ 48u8) == 135u8) && ((246u8 ^ 114u8) == 132u8)) && (((164u8 ^ 133u8) == 33u8) && ((140u8 ^ 15u8) == 131u8)))) && (((((214u8 ^ 206u8) == 24u8) && ((6u8 ^ 96u8) == 102u8)) && (((204u8 ^ 85u8) == 153u8) && ((171u8 ^ 172u8) == 7u8))) && ((((151u8 ^ 232u8) == 127u8) && ((107u8 ^ 63u8) == 84u8)) && (((240u8 ^ 161u8) == 81u8) && (((90u8 ^ 28u8) == 70u8) && ((209u8 ^ 154u8) == 75u8))))))
}

#[verifier::opaque]
spec fn bytes_p_3_50() -> bool {
    (((((bit_of(207u8, 1) == 1u8) && ((53u8 ^ 77u8) == 120u8)) && (((21u8 ^ 46u8) == 59u8) && ((61u8 ^ 249u8) == 196u8))) && ((((135u8 ^ 96u8) == 231u8) && ((132u8 ^ 228u8) == 96u8)) && (((33u8 ^ 10u8) == 43u8) && ((131u8 ^ 31u8) == 156u8)))) && (((((24u8 ^ 156u8) == 132u8) && ((102u8 ^ 193u8) == 167u8)) && (((153u8 ^ 170u8) == 51u8) && ((7u8 ^ 88u8) == 95u8))) && ((((127u8 ^ 209u8) == 174u8) && ((84u8 ^ 127u8) == 43u8)) && (((81u8 ^ 66u8) == 19u8) && (((70u8 ^ 57u8) == 127u8) && ((75u8 ^ 52u8) == 127u8))))))
}

#[verifier::opaque]
spec fn bytes_p_3_51() -> bool {
    (((((bit_of(207u8, 2) == 1u8) && ((120u8 ^ 154u8) == 226u8)) && (((59u8 ^ 92u8) == 103u8) && ((196u8 ^ 242u8) == 54u8))) && ((((231u8 ^ 193u8) == 38u8) && ((96u8 ^ 200u8) == 168u8)) && (((43u8 ^ 21u8) == 62u8) && ((156u8 ^ 62u8) == 162u8)))) && (((((132u8 ^ 56u8) == 188u8) && ((167u8 ^ 131u8) == 36u8)) && (((51u8 ^ 85u8) == 102u8) && ((95u8 ^ 177u8) == 238u8))) && ((((174u8 ^ 162u8) == 12u8) && ((43u8 ^ 255u8) == 212u8)) && (((19u8 ^ 132u8) == 151u8) && (((127u8 ^ 114u8) == 13u8) && ((127u8 ^ 104u8) == 23u8))))))
}

#[verifier::opaque]
spec fn bytes_p_3_52() -> bool {
    (((((bit_of(207u8, 3) == 1u8) && ((226u8 ^ 52u8) == 214u8)) && (((103u8 ^ 185u8) == 222u8) && ((54u8 ^ 228u8) == 210u8))) && ((((38u8 ^ 131u8) == 165u8) && ((168u8 ^ 145u8) == 57u8)) && (((62u8 ^ 43u8) == 21u8) && ((162u8 ^ 124u8) == 222u8)))) && (((((188u8 ^ 112u8) == 204u8) && ((36u8 ^ 6u8) == 34u8)) && (((102u8 ^ 171u8) == 205u8) && ((238u8 ^ 98u8) == 140u8))) && ((((12u8 ^ 69u8) == 73u8) && ((212u8 ^ 255u8) == 43u8)) && (((151u8 ^ 9u8) == 158u8) && (((13u8 ^ 229u8) == 232u8) && ((23u8 ^ 208u8) == 199u8))))))
}

#[verifier::opaque]
spec fn bytes_p_3_53() -> bool {
    (bit_of(207u8, 4) == 0u8)
}

#[verifier::opaque]
spec fn bytes_p_3_54() -> bool {
    (bit_of(207u8, 5) == 0u8)
}

#[verifier::opaque]
spec fn bytes_p_3_55() -> bool {
    (((((bit_of(207u8, 6) == 1u8) && ((214u8 ^ 178u8) == 100u8)) && (((222u8 ^ 202u8) == 20u8) && ((210u8 ^ 37u8) == 247u8))) && ((((165u8 ^ 31u8) == 186u8) && ((57u8 ^ 140u8) == 181u8)) && (((21u8 ^ 92u8) == 73u8) && ((222u8 ^ 225u8) == 63u8)))) && (((((204u8 ^ 131u8) == 79u8) && ((34u8 ^ 51u8) == 17u8)) && (((205u8 ^ 88u8) == 149u8) && ((140u8 ^ 21u8) == 153u8))) && ((((73u8 ^ 43u8) == 98u8) && ((43u8 ^ 250u8) == 209u8)) && (((158u8 ^ 79u8) == 209u8) && (((232u8 ^ 40u8) == 192u8) && ((199u8 ^ 135u8) == 64u8))))))
}

#[verifier::opaque]
spec fn bytes_p_3_56() -> bool {
    (((((bit_of(207u8, 7) == 1u8) && ((100u8 ^ 227u8) == 135u8)) && (((20u8 ^ 149u8) == 129u8) && ((247u8 ^ 75u8) == 188u8))) && ((((186u8 ^ 62u8) == 132u8) && ((181u8 ^ 24u8) == 173u8)) && (((73u8 ^ 185u8) == 240u8) && ((63u8 ^ 194u8) == 253u8)))) && (((((79u8 ^ 7u8) == 72u8) && ((17u8 ^ 103u8) == 118u8)) && (((149u8 ^ 176u8) == 37u8) && ((153u8 ^ 42u8) == 179u8))) && ((((98u8 ^ 86u8) == 52u8) && ((209u8 ^ 244u8) == 37u8)) && (((209u8 ^ 159u8) == 78u8) && (((192u8 ^ 80u8) == 144u8) && ((64u8 ^ 14u8) == 78u8))))))
}

#[verifier::opaque]
spec fn bytes_p_3_57() -> bool {
    (((((bit_of(191u8, 0) == 1u8) && ((135u8 ^ 198u8) == 65u8)) && (((129u8 ^ 43u8) == 170u8) && ((188u8 ^ 151u8) == 43u8))) && ((((132u8 ^ 124u8) == 248u8) && ((173u8 ^ 48u8) == 157u8)) && (((240u8 ^ 114u8) == 130u8) && ((253u8 ^ 133u8) == 120u8)))) && (((((72u8 ^ 15u8) == 71u8) && ((118u8 ^ 206u8) == 184u8)) && (((37u8 ^ 96u8) == 69u8) && ((179u8 ^ 85u8) == 230u8))) && ((((52u8 ^ 172u8) == 152u8) && ((37u8 ^ 232u8) == 205u8)) && (((78u8 ^ 63u8) == 113u8) && (((144u8 ^ 161u8) == 49u8) && ((78u8 ^ 28u8) == 82u8))))))
}

#[verifier::opaque]
spec fn bytes_p_3_58() -> bool {
    (((((bit_of(191u8, 1) == 1u8) && ((65u8 ^ 140u8) == 205u8)) && (((170u8 ^ 87u8) == 253u8) && ((43u8 ^ 46u8) == 5u8))) && ((((248u8 ^ 249u8) == 1u8) && ((157u8 ^ 96u8) == 253u8)) && (((130u8 ^ 228u8) == 102u8) && ((120u8 ^ 10u8) == 114u8)))) && (((((71u8 ^ 31u8) == 88u8) && ((184u8 ^ 156u8) == 36u8)) && (((69u8 ^ 193u8) == 132u8) && ((230u8 ^ 170u8) == 76u8))) && ((((152u8 ^ 88u8) == 192u8) && ((205u8 ^ 209u8) == 28u8)) && (((113u8 ^ 127u8) == 14u8) && (((49u8 ^ 66u8) == 115u8) && ((82u8 ^ 57u8) == 107u8))))))
}

#[verifier::opaque]
spec fn bytes_p_3_59() -> bool {
    (((((bit_of(191u8, 2) == 1u8) && ((205u8 ^ 24u8) == 213u8)) && (((253u8 ^ 175u8) == 82u8) && ((5u8 ^ 92u8) == 89u8))) && ((((1u8 ^ 242u8) == 243u8) && ((253u8 ^ 193u8) == 60u8)) && (((102u8 ^ 200u8) == 174u8) && ((114u8 ^ 21u8) == 103u8)))) && (((((88u8 ^ 62u8) == 102u8) && ((36u8 ^ 56u8) == 28u8)) && (((132u8 ^ 131u8) == 7u8) && ((76u8 ^ 85u8) == 25u8))) && ((((192u8 ^ 177u8) == 113u8) && ((28u8 ^ 162u8) == 190u8)) && (((14u8 ^ 255u8) == 241u8) && (((115u8 ^ 132u8) == 247u8) && ((107u8 ^ 114u8) == 25u8))))))
}

#[verifier::opaque]
spec fn bytes_p_3_60() -> bool {
    (((((bit_of(191u8, 3) == 1u8) && ((213u8 ^ 48u8) == 229u8)) && (((82u8 ^ 94u8) == 12u8) && ((89u8 ^ 185u8) == 224u8))) && ((((243u8 ^ 228u8) == 23u8) && ((60u8 ^ 131u8) == 191u8)) && (((174u8 ^ 145u8) == 63u8) && ((103u8 ^ 43u8) == 76u8)))) && (((((102u8 ^ 124u8) == 26u8) && ((28u8 ^ 112u8) == 108u8)) && (((7u8 ^ 6u8) == 1u8) && ((25u8 ^ 171u8) == 178u8))) && ((((113u8 ^ 98u8) == 19u8) && ((190u8 ^ 69u8) == 251u8)) && (((241u8 ^ 255u8) == 14u8) && (((247u8 ^ 9u8) == 254u8) && ((25u8 ^ 229u8) == 252u8))))))
}

#[verifier::opaque]
spec fn bytes_p_3_61() -> bool {
    (((((bit_of(191u8, 4) == 1u8) && ((229u8 ^ 231u8) == 2u8)) && (((12u8 ^ 188u8) == 176u8) && ((224u8 ^ 114u8) == 146u8))) && ((((23u8 ^ 201u8) == 222u8) && ((191u8 ^ 7u8) == 184u8)) && (((63u8 ^ 35u8) == 28u8) && ((76u8 ^ 87u8) == 27u8)))) && (((((26u8 ^ 248u8) == 226u8) && ((108u8 ^ 224u8) == 140u8)) && (((1u8 ^ 12u8) == 13u8) && ((178u8 ^ 86u8) == 228u8))) && ((((19u8 ^ 197u8) == 214u8) && ((251u8 ^ 138u8) == 113u8)) && (((14u8 ^ 254u8) == 240u8) && (((254u8 ^ 19u8) == 237u8) && ((252u8 ^ 202u8) == 54u8))))))
}

#[verifier::opaque]
spec fn bytes_p_3_62() -> bool {
    (((((bit_of(191u8, 5) == 1u8) && ((2u8 ^ 73u8) == 75u8)) && (((176u8 ^ 121u8) == 201u8) && ((146u8 ^ 229u8) == 119u8))) && ((((222u8 ^ 146u8) == 76u8) && ((184u8 ^ 15u8) == 183u8)) && (((28u8 ^ 70u8) == 90u8) && ((27u8 ^ 174u8) == 181u8)))) && (((((226u8 ^ 240u8) == 18u8) && ((140u8 ^ 193u8) == 77u8)) && (((13u8 ^ 25u8) == 20u8) && ((228u8 ^ 172u8) == 72u8))) && ((((214u8 ^ 138u8) == 92u8) && ((113u8 ^ 21u8) == 100u8)) && (((240u8 ^ 253u8) == 13u8) && (((237u8 ^ 39u8) == 202u8) && ((54u8 ^ 148u8) == 162u8))))))
}

#[verifier::opaque]
spec fn bytes_p_3_63() -> bool {
    (bit_of(191u8, 6) == 0u8)
}

#[verifier::opaque]
spec fn bytes_p_3_64() -> bool {
    (((((bit_of(191u8, 7) == 1u8) && ((75u8 ^ 42u8) == 97u8)) && (((201u8 ^ 228u8) == 45u8) && ((119u8 ^ 149u8) == 226u8))) && ((((76u8 ^ 75u8) == 7u8) && ((183u8 ^ 62u8) == 137u8)) && (((90u8 ^ 24u8) == 66u8) && ((181u8 ^ 185u8) == 12u8)))) && (((((18u8 ^ 194u8) == 208u8) && ((77u8 ^ 7u8) == 74u8)) && (((20u8 ^ 103u8) == 115u8) && ((72u8 ^ 176u8) == 248u8))) && ((((92u8 ^ 42u8) == 118u8) && ((100u8 ^ 86u8) == 50u8)) && (((13u8 ^ 244u8) == 249u8) && (((202u8 ^ 159u8) == 85u8) && ((162u8 ^ 80u8) == 242u8))))))
}

#[verifier::opaque]
spec fn bytes_p_3_65() -> bool {
    (bit_of(198u8, 0) == 0u8)
}

#[verifier::opaque]
spec fn bytes_p_3_66() -> bool {
    (((((bit_of(198u8, 1) == 1u8) && ((97u8 ^ 47u8) == 78u8)) && (((45u8 ^ 144u8) == 189u8) && ((226u8 ^ 87u8) == 181u8))) && ((((7u8 ^ 46u8) == 41u8) && ((137u8 ^ 249u8) == 112u8)) && (((66u8 ^ 96u8) == 34u8) && ((12u8 ^ 228u8) == 232u8)))) && (((((208u8 ^ 10u8) == 218u8) && ((74u8 ^ 31u8) == 85u8)) && (((115u8 ^ 156u8) == 239u8) && ((248u8 ^ 193u8) == 57u8))) && ((((118u8 ^ 170u8) == 220u8) && ((50u8 ^ 88u8) == 106u8)) && (((249u8 ^ 209u8) == 40u8) && (((85u8 ^ 127u8) == 42u8) && ((242u8 ^ 66u8) == 176u8))))))
}

#[verifier::opaque]
spec fn bytes_p_3_67() -> bool {
    (((((bit_of(198u8, 2) == 1u8) && ((78u8 ^ 94u8) == 16u8)) && (((189u8 ^ 32u8) == 157u8) && ((181u8 ^ 175u8) == 26u8))) && ((((41u8 ^ 92u8) == 117u8) && ((112u8 ^ 242u8) == 130u8)) && (((34u8 ^ 193u8) == 227u8) && ((232u8 ^ 200u8) == 32u8)))) && (((((218u8 ^ 21u8) == 207u8) && ((85u8 ^ 62u8) == 107u8)) && (((239u8 ^ 56u8) == 215u8) && ((57u8 ^ 131u8) == 186u8))) && ((((220u8 ^ 85u8) == 137u8) && ((106u8 ^ 177u8) == 219u8)) && (((40u8 ^ 162u8) == 138u8) && (((42u8 ^ 255u8) == 213u8) && ((176u8 ^ 132u8) == 52u8))))))
}

#[verifier::opaque]
spec fn bytes_p_3_68() -> bool {
    (bit_of(198u8, 3) == 0u8)
}

#[verifier::opaque]
spec fn bytes_p_3_69() -> bool {
    (bit_of(198u8, 4) == 0u8)
}

#[verifier::opaque]
spec fn bytes_p_3_70() -> bool {
    (bit_of(198u8, 5) == 0u8)
}

#[verifier::opaque]
spec fn bytes_p_3_71() -> bool {
    (((((bit_of(198u8, 6) == 1u8) && ((16u8 ^ 216u8) == 200u8)) && (((157u8 ^ 1u8) == 156u8) && ((26u8 ^ 242u8) == 232u8))) && ((((117u8 ^ 202u8) == 191u8) && ((130u8 ^ 37u8) == 167u8)) && (((227u8 ^ 31u8) == 252u8) && ((32u8 ^ 140u8) == 172u8)))) && (((((207u8 ^ 92u8) == 147u8) && ((107u8 ^ 225u8) == 138u8)) && (((215u8 ^ 131u8) == 84u8) && ((186u8 ^ 51u8) == 137u8))) && ((((137u8 ^ 88u8) == 209u8) && ((219u8 ^ 21u8) == 206u8)) && (((138u8 ^ 43u8) == 161u8) && (((213u8 ^ 250u8) == 47u8) && ((52u8 ^ 79u8) == 123u8))))))
}

#[verifier::opaque]
spec fn bytes_p_3_72() -> bool {
    (((((bit_of(198u8, 7) == 1u8) && ((200u8 ^ 176u8) == 120u8)) && (((156u8 ^ 3u8) == 159u8) && ((232u8 ^ 228u8) == 12u8))) && ((((191u8 ^ 149u8) == 42u8) && ((167u8 ^ 75u8) == 236u8)) && (((252u8 ^ 62u8) == 194u8) && ((172u8 ^ 24u8) == 180u8)))) && (((((147u8 ^ 185u8) == 42u8) && ((138u8 ^ 194u8) == 72u8)) && (((84u8 ^ 7u8) == 83u8) && ((137u8 ^ 103u8) == 238u8))) && ((((209u8 ^ 176u8) == 97u8) && ((206u8 ^ 42u8) == 228u8)) && (((161u8 ^ 86u8) == 247u8) && (((47u8 ^ 244u8) == 219u8) && ((123u8 ^ 159u8) == 228u8))))))
}

#[verifier::opaque]
spec fn bytes_p_3_73() -> bool {
    (bit_of(210u8, 0) == 0u8)
}

#[verifier::opaque]
spec fn bytes_p_3_74() -> bool {
    (((((bit_of(210u8, 1) == 1u8) && ((120u8 ^ 206u8) == 182u8)) && (((159u8 ^ 15u8) == 144u8) && ((12u8 ^ 144u8) == 156u8))) && ((((42u8 ^ 87u8) == 125u8) && ((236u8 ^ 46u8) == 194u8)) && (((194u8 ^ 249u8) == 59u8) && ((180u8 ^ 96u8) == 212u8)))) && (((((42u8 ^ 228u8) == 206u8) && ((72u8 ^ 10u8) == 66u8)) && (((83u8 ^ 31u8) == 76u8) && ((238u8 ^ 156u8) == 114u8))) && ((((97u8 ^ 193u8) == 160u8) && ((228u8 ^ 170u8) == 78u8)) && (((247u8 ^ 88u8) == 175u8) && (((219u8 ^ 209u8) == 10u8) && ((228u8 ^ 127u8) == 155u8))))))
}

#[verifier::opaque]
spec fn bytes_p_3_75() -> bool {
    (bit_of(210u8, 2) == 0u8)
}

#[verifier::opaque]
spec fn bytes_p_3_76() -> bool {
    (bit_of(210u8, 3) == 0u8)
}

#[verifier::opaque]
spec fn bytes_p_3_77() -> bool {
    (((((bit_of(210u8, 4) == 1u8) && ((182u8 ^ 249u8) == 79u8)) && (((144u8 ^ 127u8) == 239u8) && ((156u8 ^ 128u8) == 28u8))) && ((((125u8 ^ 188u8) == 193u8) && ((194u8 ^ 114u8) == 176u8)) && (((59u8 ^ 201u8) == 242u8) && ((212u8 ^ 7u8) == 211u8)))) && (((((206u8 ^ 35u8) == 237u8) && ((66u8 ^ 87u8) == 21u8)) && (((76u8 ^ 248u8) == 180u8) && ((114u8 ^ 224u8) == 146u8))) && ((((160u8 ^ 12u8) == 172u8) && ((78u8 ^ 86u8) == 24u8)) && (((175u8 ^ 197u8) == 106u8) && (((10u8 ^ 138u8) == 128u8) && ((155u8 ^ 254u8) == 101u8))))))
}

#[verifier::opaque]
spec fn bytes_p_3_78() -> bool {
    (bit_of(210u8, 5) == 0u8)
}

#[verifier::opaque]
spec fn bytes_p_3_79() -> bool {
    (((((bit_of(210u8, 6) == 1u8) && ((79u8 ^ 109u8) == 34u8)) && (((239u8 ^ 254u8) == 17u8) && ((28u8 ^ 1u8) == 29u8))) && ((((193u8 ^ 242u8) == 51u8) && ((176u8 ^ 202u8) == 122u8)) && (((242u8 ^ 37u8) == 215u8) && ((211u8 ^ 31u8) == 204u8)))) && (((((237u8 ^ 140u8) == 97u8) && ((21u8 ^ 92u8) == 73u8)) && (((180u8 ^ 225u8) == 85u8) && ((146u8 ^ 131u8) == 17u8))) && ((((172u8 ^ 51u8) == 159u8) && ((24u8 ^ 88u8) == 64u8)) && (((106u8 ^ 21u8) == 127u8) && (((128u8 ^ 43u8) == 171u8) && ((101u8 ^ 250u8) == 159u8))))))
}

#[verifier::opaque]
spec fn bytes_p_3_80() -> bool {
    (((((bit_of(210u8, 7) == 1u8) && ((34u8 ^ 93u8) == 127u8)) && (((17u8 ^ 252u8) == 237u8) && ((29u8 ^ 3u8) == 30u8))) && ((((51u8 ^ 228u8) == 215u8) && ((122u8 ^ 149u8) == 239u8)) && (((215u8 ^ 75u8) == 156u8) && ((204u8 ^ 62u8) == 242u8)))) && (((((97u8 ^ 24u8) == 121u8) && ((73u8 ^ 185u8) == 240u8)) && (((85u8 ^ 194u8) == 151u8) && ((17u8 ^ 7u8) == 22u8))) && ((((159u8 ^ 103u8) == 248u8) && ((64u8 ^ 176u8) == 240u8)) && (((127u8 ^ 42u8) == 85u8) && (((171u8 ^ 86u8) == 253u8) && ((159u8 ^ 244u8) == 107u8))))))
}

#[verifier::opaque]
spec fn bytes_p_3_81() -> bool {
    (((((bit_of(81u8, 0) == 1u8) && ((127u8 ^ 61u8) == 66u8)) && (((237u8 ^ 248u8) == 21u8) && ((30u8 ^ 7u8) == 25u8))) && ((((215u8 ^ 200u8) == 31u8) && ((239u8 ^ 43u8) == 196u8)) && (((156u8 ^ 151u8) == 11u8) && ((242u8 ^ 124u8) == 142u8)))) && (((((121u8 ^ 48u8) == 73u8) && ((240u8 ^ 114u8) == 130u8)) && (((151u8 ^ 133u8) == 18u8) && ((22u8 ^ 15u8) == 25u8))) && ((((248u8 ^ 206u8) == 54u8) && ((240u8 ^ 96u8) == 144u8)) && (((85u8 ^ 85u8) == 0u8) && (((253u8 ^ 172u8) == 81u8) && ((107u8 ^ 232u8) == 131u8))))))
}

#[verifier::opaque]
spec fn bytes_p_3_82() -> bool {
    (bit_of(81u8, 1) == 0u8)
}

#[verifier::opaque]
spec fn bytes_p_3_83() -> bool {
    (bit_of(81u8, 2) == 0u8)
}

#[verifier::opaque]
spec fn bytes_p_3_84() -> bool {
    (bit_of(81u8, 3) == 0u8)
}

#[verifier::opaque]
spec fn bytes_p_3_85() -> bool {
    (((((bit_of(81u8, 4) == 1u8) && ((66u8 ^ 250u8) == 184u8)) && (((21u8 ^ 132u8) == 145u8) && ((25u8 ^ 127u8) == 102u8))) && ((((31u8 ^ 128u8) == 159u8) && ((196u8 ^ 188u8) == 120u8)) && (((11u8 ^ 114u8) == 121u8) && ((142u8 ^ 201u8) == 71u8)))) && (((((73u8 ^ 7u8) == 78u8) && ((130u8 ^ 35u8) == 161u8)) && (((18u8 ^ 87u8) == 69u8) && ((25u8 ^ 248u8) == 225u8))) && ((((54u8 ^ 224u8) == 214u8) && ((144u8 ^ 12u8) == 156u8)) && (((0u8 ^ 86u8) == 86u8) && (((81u8 ^ 197u8) == 148u8) && ((131u8 ^ 138u8) == 9u8))))))
}

#[verifier::opaque]
spec fn bytes_p_3_86() -> bool {
    (bit_of(81u8, 5) == 0u8)
}

#[verifier::opaque]
spec fn bytes_p_3_87() -> bool {
    (((((bit_of(81u8, 6) == 1u8) && ((184u8 ^ 230u8) == 94u8)) && (((145u8 ^ 18u8) == 131u8) && ((102u8 ^ 254u8) == 152u8))) && ((((159u8 ^ 1u8) == 158u8) && ((120u8 ^ 242u8) == 138u8)) && (((121u8 ^ 202u8) == 179u8) && ((71u8 ^ 37u8) == 98u8)))) && (((((78u8 ^ 31u8) == 81u8) && ((161u8 ^ 140u8) == 45u8)) && (((69u8 ^ 92u8) == 25u8) && ((225u8 ^ 225u8) == 0u8))) && ((((214u8 ^ 131u8) == 85u8) && ((156u8 ^ 51u8) == 175u8)) && (((86u8 ^ 88u8) == 14u8) && (((148u8 ^ 21u8) == 129u8) && ((9u8 ^ 43u8) == 34u8))))))
}

#[verifier::opaque]
spec fn bytes_p_3_88() -> bool {
    (bit_of(81u8, 7) == 0u8)
}

#[verifier::opaque]
spec fn bytes_p_3_89() -> bool {
    (((((bit_of(125u8, 0) == 1u8) && ((94u8 ^ 152u8) == 198u8)) && (((131u8 ^ 75u8) == 200u8) && ((152u8 ^ 248u8) == 96u8))) && ((((158u8 ^ 7u8) == 153u8) && ((138u8 ^ 200u8) == 66u8)) && (((179u8 ^ 43u8) == 152u8) && ((98u8 ^ 151u8) == 245u8)))) && (((((81u8 ^ 124u8) == 45u8) && ((45u8 ^ 48u8) == 29u8)) && (((25u8 ^ 114u8) == 107u8) && ((0u8 ^ 133u8) == 133u8))) && ((((85u8 ^ 15u8) == 90u8) && ((175u8 ^ 206u8) == 97u8)) && (((14u8 ^ 96u8) == 110u8) && (((129u8 ^ 85u8) == 212u8) && ((34u8 ^ 172u8) == 142u8))))))
}

#[verifier::opaque]
spec fn bytes_p_3_90() -> bool {
    (bit_of(125u8, 1) == 0u8)
}

#[verifier::opaque]
spec fn bytes_p_3_91() -> bool {
    (((((bit_of(125u8, 2) == 1u8) && ((198u8 ^ 110u8) == 168u8)) && (((200u8 ^ 47u8) == 231u8) && ((96u8 ^ 225u8) == 129u8))) && ((((153u8 ^ 31u8) == 134u8) && ((66u8 ^ 32u8) == 98u8)) && (((152u8 ^ 175u8) == 55u8) && ((245u8 ^ 92u8) == 169u8)))) && (((((45u8 ^ 242u8) == 223u8) && ((29u8 ^ 193u8) == 220u8)) && (((107u8 ^ 200u8) == 163u8) && ((133u8 ^ 21u8) == 144u8))) && ((((90u8 ^ 62u8) == 100u8) && ((97u8 ^ 56u8) == 89u8)) && (((110u8 ^ 131u8) == 237u8) && (((212u8 ^ 85u8) == 129u8) && ((142u8 ^ 177u8) == 63u8))))))
}

#[verifier::opaque]
spec fn bytes_p_3_92() -> bool {
    (((((bit_of(125u8, 3) == 1u8) && ((168u8 ^ 91u8) == 243u8)) && (((231u8 ^ 94u8) == 185u8) && ((129u8 ^ 194u8) == 67u8))) && ((((134u8 ^ 63u8) == 185u8) && ((98u8 ^ 64u8) == 34u8)) && (((55u8 ^ 94u8) == 105u8) && ((169u8 ^ 185u8) == 16u8)))) && (((((223u8 ^ 228u8) == 59u8) && ((220u8 ^ 131u8) == 95u8)) && (((163u8 ^ 145u8) == 50u8) && ((144u8 ^ 43u8) == 187u8))) && ((((100u8 ^ 124u8) == 24u8) && ((89u8 ^ 112u8) == 41u8)) && (((237u8 ^ 6u8) == 235u8) && (((129u8 ^ 171u8) == 42u8) && ((63u8 ^ 98u8) == 93u8))))))
}

#[verifier::opaque]
spec fn bytes_p_3_93() -> bool {
    (((((bit_of(125u8, 4) == 1u8) && ((243u8 ^ 182u8) == 69u8)) && (((185u8 ^ 188u8) == 5u8) && ((67u8 ^ 132u8) == 199u8))) && ((((185u8 ^ 127u8) == 198u8) && ((34u8 ^ 128u8) == 162u8)) && (((105u8 ^ 188u8) == 213u8) && ((16u8 ^ 114u8) == 98u8)))) && (((((59u8 ^ 201u8) == 242u8) && ((95u8 ^ 7u8) == 88u8)) && (((50u8 ^ 35u8) == 17u8) && ((187u8 ^ 87u8) == 236u8))) && ((((24u8 ^ 248u8) == 224u8) && ((41u8 ^ 224u8) == 201u8)) && (((235u8 ^ 12u8) == 231u8) && (((42u8 ^ 86u8) == 124u8) && ((93u8 ^ 197u8) == 152u8))))))
}

#[verifier::opaque]
spec fn bytes_p_3_94() -> bool {
    (((((bit_of(125u8, 5) == 1u8) && ((69u8 ^ 235u8) == 174u8)) && (((5u8 ^ 121u8) == 124u8) && ((199u8 ^ 9u8) == 206u8))) && ((((198u8 ^ 255u8) == 57u8) && ((162u8 ^ 0u8) == 162u8)) && (((213u8 ^ 121u8) == 172u8) && ((98u8 ^ 229u8) == 135u8)))) && (((((242u8 ^ 146u8) == 96u8) && ((88u8 ^ 15u8) == 87u8)) && (((17u8 ^ 70u8) == 87u8) && ((236u8 ^ 174u8) == 66u8))) && ((((224u8 ^ 240u8) == 16u8) && ((201u8 ^ 193u8) == 8u8)) && (((231u8 ^ 25u8) == 254u8) && (((124u8 ^ 172u8) == 208u8) && ((152u8 ^ 138u8) == 18u8))))))
}

#[verifier::opaque]
spec fn bytes_p_3_95() -> bool {
    (((((bit_of(125u8, 6) == 1u8) && ((174u8 ^ 81u8) == 255u8)) && (((124u8 ^ 243u8) == 143u8) && ((206u8 ^ 18u8) == 220u8))) && ((((57u8 ^ 254u8) == 199u8) && ((162u8 ^ 1u8) == 163u8)) && (((172u8 ^ 242u8) == 94u8) && ((135u8 ^ 202u8) == 77u8)))) && (((((96u8 ^ 37u8) == 69u8) && ((87u8 ^ 31u8) == 72u8)) && (((87u8 ^ 140u8) == 219u8) && ((66u8 ^ 92u8) == 30u8))) && ((((16u8 ^ 225u8) == 241u8) && ((8u8 ^ 131u8) == 139u8)) && (((254u8 ^ 51u8) == 205u8) && (((208u8 ^ 88u8) == 136u8) && ((18u8 ^ 21u8) == 7u8))))))
}

#[verifier::opaque]
spec fn bytes_p_3_96() -> bool {
    (bit_of(125u8, 7) == 0u8)
}

#[verifier::opaque]
spec fn bytes_p_3_97() -> bool {
    (((((bit_of(79u8, 0) == 1u8) && ((255u8 ^ 68u8) == 187u8)) && (((143u8 ^ 205u8) == 66u8) && ((220u8 ^ 75u8) == 151u8))) && ((((199u8 ^ 248u8) == 63u8) && ((163u8 ^ 7u8) == 164u8)) && (((94u8 ^ 200u8) == 150u8) && ((77u8 ^ 43u8) == 102u8)))) && (((((69u8 ^ 151u8) == 210u8) && ((72u8 ^ 124u8) == 52u8)) && (((219u8 ^ 48u8) == 235u8) && ((30u8 ^ 114u8) == 108u8))) && ((((241u8 ^ 133u8) == 116u8) && ((139u8 ^ 15u8) == 132u8)) && (((205u8 ^ 206u8) == 3u8) && (((136u8 ^ 96u8) == 232u8) && ((7u8 ^ 85u8) == 82u8))))))
}

#[verifier::opaque]
spec fn bytes_p_3_98() -> bool {
    (((((bit_of(79u8, 1) == 1u8) && ((187u8 ^ 136u8) == 51u8)) && (((66u8 ^ 154u8) == 216u8) && ((151u8 ^ 151u8) == 0u8))) && ((((63u8 ^ 240u8) == 207u8) && ((164u8 ^ 15u8) == 171u8)) && (((150u8 ^ 144u8) == 6u8) && ((102u8 ^ 87u8) == 49u8)))) && (((((210u8 ^ 46u8) == 252u8) && ((52u8 ^ 249u8) == 205u8)) && (((235u8 ^ 96u8) == 139u8) && ((108u8 ^ 228u8) == 136u8))) && ((((116u8 ^ 10u8) == 126u8) && ((132u8 ^ 31u8) == 155u8)) && (((3u8 ^ 156u8) == 159u8) && (((232u8 ^ 193u8) == 41u8) && ((82u8 ^ 170u8) == 248u8))))))
}

#[verifier::opaque]
spec fn bytes_p_3_99() -> bool {
    (((((bit_of(79u8, 2) == 1u8) && ((51u8 ^ 151u8) == 164u8)) && (((216u8 ^ 53u8) == 237u8) && ((0u8 ^ 47u8) == 47u8))) && ((((207u8 ^ 225u8) == 46u8) && ((171u8 ^ 31u8) == 180u8)) && (((6u8 ^ 32u8) == 38u8) && ((49u8 ^ 175u8) == 158u8)))) && (((((252u8 ^ 92u8) == 160u8) && ((205u8 ^ 242u8) == 63u8)) && (((139u8 ^ 193u8) == 74u8) && ((136u8 ^ 200u8) == 64u8))) && ((((126u8 ^ 21u8) == 107u8) && ((155u8 ^ 62u8) == 165u8)) && (((159u8 ^ 56u8) == 167u8) && (((41u8 ^ 131u8) == 170u8) && ((248u8 ^ 85u8) == 173u8))))))
}

#[verifier::opaque]
spec fn bytes_p_3_100() -> bool {
    (((((bit_of(79u8, 3) == 1u8) && ((164u8 ^ 46u8) == 138u8)) && (((237u8 ^ 107u8) == 134u8) && ((47u8 ^ 94u8) == 113u8))) && ((((46u8 ^ 194u8) == 236u8) && ((180u8 ^ 63u8) == 139u8)) && (((38u8 ^ 64u8) == 102u8) && ((158u8 ^ 94u8) == 192u8)))) && (((((160u8 ^ 185u8) == 25u8) && ((63u8 ^ 228u8) == 219u8)) && (((74u8 ^ 131u8) == 201u8) && ((64u8 ^ 145u8) == 209u8))) && ((((107u8 ^ 43u8) == 64u8) && ((165u8 ^ 124u8) == 217u8)) && (((167u8 ^ 112u8) == 215u8) && (((170u8 ^ 6u8) == 172u8) && ((173u8 ^ 171u8) == 6u8))))))
}

#[verifier::opaque]
spec fn bytes_p_3_101() -> bool {
    (bit_of(79u8, 4) == 0u8)
}

#[verifier::opaque]
spec fn bytes_p_3_102() -> bool {
    (bit_of(79u8, 5) == 0u8)
}

#[verifier::opaque]
spec fn bytes_p_3_103() -> bool {
    (((((bit_of(79u8, 6) == 1u8) && ((138u8 ^ 235u8) == 97u8)) && (((134u8 ^ 91u8) == 221u8) && ((113u8 ^ 243u8) == 130u8))) && ((((236u8 ^ 18u8) == 254u8) && ((139u8 ^ 254u8) == 117u8)) && (((102u8 ^ 1u8) == 103u8) && ((192u8 ^ 242u8) == 50u8)))) && (((((25u8 ^ 202u8) == 211u8) && ((219u8 ^ 37u8) == 254u8)) && (((201u8 ^ 31u8) == 214u8) && ((209u8 ^ 140u8) == 93u8))) && ((((64u8 ^ 92u8) == 28u8) && ((217u8 ^ 225u8) == 56u8)) && (((215u8 ^ 131u8) == 84u8) && (((172u8 ^ 51u8) == 159u8) && ((6u8 ^ 88u8) == 94u8))))))
}

#[verifier::opaque]
spec fn bytes_p_3_104() -> bool {
    (bit_of(79u8, 7) == 0u8)
}

#[verifier::opaque]
spec fn bytes_p_3_105() -> bool {
    (bit_of(96u8, 0) == 0u8)
}

#[verifier::opaque]
spec fn bytes_p_3_106() -> bool {
    (bit_of(96u8, 1) == 0u8)
}

#[verifier::opaque]
spec fn bytes_p_3_107() -> bool {
    (bit_of(96u8, 2) == 0u8)
}

#[verifier::opaque]
spec fn bytes_p_3_108() -> bool {
    (bit_of(96u8, 3) == 0u8)
}

#[verifier::opaque]
spec fn bytes_p_3_109() -> bool {
    (bit_of(96u8, 4) == 0u8)
}

#[verifier::opaque]
spec fn bytes_p_3_110() -> bool {
    (((((bit_of(96u8, 5) == 1u8) && ((97u8 ^ 68u8) == 37u8)) && (((221u8 ^ 227u8) == 62u8) && ((130u8 ^ 173u8) == 47u8))) && ((((254u8 ^ 121u8) == 135u8) && ((117u8 ^ 9u8) == 124u8)) && (((103u8 ^ 255u8) == 152u8) && ((50u8 ^ 0u8) == 50u8)))) && (((((211u8 ^ 121u8) == 170u8) && ((254u8 ^ 229u8) == 27u8)) && (((214u8 ^ 146u8) == 68u8) && ((93u8 ^ 15u8) == 82u8))) && ((((28u8 ^ 70u8) == 90u8) && ((56u8 ^ 174u8) == 150u8)) && (((84u8 ^ 240u8) == 164u8) && (((159u8 ^ 193u8) == 94u8) && ((94u8 ^ 25u8) == 71u8))))))
}

#[verifier::opaque]
spec fn bytes_p_3_111() -> bool {
    (((((bit_of(96u8, 6) == 1u8) && ((37u8 ^ 136u8) == 173u8)) && (((62u8 ^ 198u8) == 248u8) && ((47u8 ^ 91u8) == 116u8))) && ((((135u8 ^ 243u8) == 116u8) && ((124u8 ^ 18u8) == 110u8)) && (((152u8 ^ 254u8) == 102u8) && ((50u8 ^ 1u8) == 51u8)))) && (((((170u8 ^ 242u8) == 88u8) && ((27u8 ^ 202u8) == 209u8)) && (((68u8 ^ 37u8) == 97u8) && ((82u8 ^ 31u8) == 77u8))) && ((((90u8 ^ 140u8) == 214u8) && ((150u8 ^ 92u8) == 202u8)) && (((164u8 ^ 225u8) == 69u8) && (((94u8 ^ 131u8) == 221u8) && ((71u8 ^ 51u8) == 116u8))))))
}

#[verifier::opaque]
spec fn bytes_p_3_112() -> bool {
    (bit_of(96u8, 7) == 0u8)
}

#[verifier::opaque]
spec fn bytes_p_3_113() -> bool {
    (((((bit_of(173u8, 0) == 1u8) && ((173u8 ^ 32u8) == 141u8)) && (((248u8 ^ 26u8) == 226u8) && ((116u8 ^ 111u8) == 27u8))) && ((((116u8 ^ 205u8) == 185u8) && ((110u8 ^ 75u8) == 37u8)) && (((102u8 ^ 248u8) == 158u8) && ((51u8 ^ 7u8) == 52u8)))) && (((((88u8 ^ 200u8) == 144u8) && ((209u8 ^ 43u8) == 250u8)) && (((97u8 ^ 151u8) == 246u8) && ((77u8 ^ 124u8) == 49u8))) && ((((214u8 ^ 48u8) == 230u8) && ((202u8 ^ 114u8) == 184u8)) && (((69u8 ^ 133u8) == 192u8) && (((221u8 ^ 15u8) == 210u8) && ((116u8 ^ 206u8) == 186u8))))))
}

#[verifier::opaque]
spec fn bytes_p_3_114() -> bool {
    (bit_of(173u8, 1) == 0u8)
}

#[verifier::opaque]
spec fn bytes_p_3_115() -> bool {
    (((((bit_of(173u8, 2) == 1u8) && ((141u8 ^ 9u8) == 132u8)) && (((226u8 ^ 105u8) == 139u8) && ((27u8 ^ 188u8) == 167u8))) && ((((185u8 ^ 53u8) == 140u8) && ((37u8 ^ 47u8) == 10u8)) && (((158u8 ^ 225u8) == 127u8) && ((52u8 ^ 31u8) == 43u8)))) && (((((144u8 ^ 32u8) == 176u8) && ((250u8 ^ 175u8) == 85u8)) && (((246u8 ^ 92u8) == 170u8) && ((49u8 ^ 242u8) == 195u8))) && ((((230u8 ^ 193u8) == 39u8) && ((184u8 ^ 200u8) == 112u8)) && (((192u8 ^ 21u8) == 213u8) && (((210u8 ^ 62u8) == 236u8) && ((186u8 ^ 56u8) == 130u8))))))
}

#[verifier::opaque]
spec fn bytes_p_3_116() -> bool {
    (((((bit_of(173u8, 3) == 1u8) && ((132u8 ^ 18u8) == 150u8)) && (((139u8 ^ 210u8) == 89u8) && ((167u8 ^ 120u8) == 223u8))) && ((((140u8 ^ 107u8) == 231u8) && ((10u8 ^ 94u8) == 84u8)) && (((127u8 ^ 194u8) == 189u8) && ((43u8 ^ 63u8) == 20u8)))) && (((((176u8 ^ 64u8) == 240u8) && ((85u8 ^ 94u8) == 11u8)) && (((170u8 ^ 185u8) == 19u8) && ((195u8 ^ 228u8) == 39u8))) && ((((39u8 ^ 131u8) == 164u8) && ((112u8 ^ 145u8) == 225u8)) && (((213u8 ^ 43u8) == 254u8) && (((236u8 ^ 124u8) == 144u8) && ((130u8 ^ 112u8) == 242u8))))))
}

#[verifier::opaque]
spec fn bytes_p_3_117() -> bool {
    (bit_of(173u8, 4) == 0u8)
}

#[verifier::opaque]
spec fn bytes_p_3_118() -> bool {
    (((((bit_of(173u8, 5) == 1u8) && ((150u8 ^ 207u8) == 89u8)) && (((89u8 ^ 72u8) == 17u8) && ((223u8 ^ 227u8) == 60u8))) && ((((231u8 ^ 173u8) == 74u8) && ((84u8 ^ 121u8) == 45u8)) && (((189u8 ^ 9u8) == 180u8) && ((20u8 ^ 255u8) == 235u8)))) && (((((240u8 ^ 0u8) == 240u8) && ((11u8 ^ 121u8) == 114u8)) && (((19u8 ^ 229u8) == 246u8) && ((39u8 ^ 146u8) == 181u8))) && ((((164u8 ^ 15u8) == 171u8) && ((225u8 ^ 70u8) == 167u8)) && (((254u8 ^ 174u8) == 80u8) && (((144u8 ^ 240u8) == 96u8) && ((242u8 ^ 193u8) == 51u8))))))
}

#[verifier::opaque]
spec fn bytes_p_3_119() -> bool {
    (bit_of(173u8, 6) == 0u8)
}

#[verifier::opaque]
spec fn bytes_p_3_120() -> bool {
    (((((bit_of(173u8, 7) == 1u8) && ((89u8 ^ 181u8) == 236u8)) && (((17u8 ^ 34u8) == 51u8) && ((60u8 ^ 141u8) == 177u8))) && ((((74u8 ^ 183u8) == 253u8) && ((45u8 ^ 230u8) == 203u8)) && (((180u8 ^ 37u8) == 145u8) && ((235u8 ^ 252u8) == 23u8)))) && (((((240u8 ^ 3u8) == 243u8) && ((114u8 ^ 228u8) == 150u8)) && (((246u8 ^ 149u8) == 99u8) && ((181u8 ^ 75u8) == 254u8))) && ((((171u8 ^ 62u8) == 149u8) && ((167u8 ^ 24u8) == 191u8)) && (((80u8 ^ 185u8) == 233u8) && (((96u8 ^ 194u8) == 162u8) && ((51u8 ^ 7u8) == 52u8))))))
}

#[verifier::opaque]
spec fn bytes_p_3_121() -> bool {
    (((((bit_of(53u8, 0) == 1u8) && ((236u8 ^ 106u8) == 134u8)) && (((51u8 ^ 69u8) == 118u8) && ((177u8 ^ 26u8) == 171u8))) && ((((253u8 ^ 111u8) == 146u8) && ((203u8 ^ 205u8) == 6u8)) && (((145u8 ^ 75u8) == 218u8) && ((23u8 ^ 248u8) == 239u8)))) && (((((243u8 ^ 7u8) == 244u8) && ((150u8 ^ 200u8) == 94u8)) && (((99u8 ^ 43u8) == 72u8) && ((254u8 ^ 151u8) == 105u8))) && ((((149u8 ^ 124u8) == 233u8) && ((191u8 ^ 48u8) == 143u8)) && (((233u8 ^ 114u8) == 155u8) && (((162u8 ^ 133u8) == 39u8) && ((52u8 ^ 15u8) == 59u8))))))
}

#[verifier::opaque]
spec fn bytes_p_3_122() -> bool {
    (bit_of(53u8, 1) == 0u8)
}

#[verifier::opaque]
spec fn bytes_p_3_123() -> bool {
    (((((bit_of(53u8, 2) == 1u8) && ((134u8 ^ 168u8) == 46u8)) && (((118u8 ^ 21u8) == 99u8) && ((171u8 ^ 105u8) == 194u8))) && ((((146u8 ^ 188u8) == 46u8) && ((6u8 ^ 53u8) == 51u8)) && (((218u8 ^ 47u8) == 245u8) && ((239u8 ^ 225u8) == 14u8)))) && (((((244u8 ^ 31u8) == 235u8) && ((94u8 ^ 32u8) == 126u8)) && (((72u8 ^ 175u8) == 231u8) && ((105u8 ^ 92u8) == 53u8))) && ((((233u8 ^ 242u8) == 27u8) && ((143u8 ^ 193u8) == 78u8)) && (((155u8 ^ 200u8) == 83u8) && (((39u8 ^ 21u8) == 50u8) && ((59u8 ^ 62u8) == 5u8))))))
}

#[verifier::opaque]
spec fn bytes_p_3_124() -> bool {
    (bit_of(53u8, 3) == 0u8)
}

#[verifier::opaque]
spec fn bytes_p_3_125() -> bool {
    (((((bit_of(53u8, 4) == 1u8) && ((46u8 ^ 160u8) == 142u8)) && (((99u8 ^ 86u8) == 53u8) && ((194u8 ^ 164u8) == 102u8))) && ((((46u8 ^ 241u8) == 223u8) && ((51u8 ^ 214u8) == 229u8)) && (((245u8 ^ 188u8) == 73u8) && ((14u8 ^ 132u8) == 138u8)))) && (((((235u8 ^ 127u8) == 148u8) && ((126u8 ^ 128u8) == 254u8)) && (((231u8 ^ 188u8) == 91u8) && ((53u8 ^ 114u8) == 71u8))) && ((((27u8 ^ 201u8) == 210u8) && ((78u8 ^ 7u8) == 73u8)) && (((83u8 ^ 35u8) == 112u8) && (((50u8 ^ 87u8) == 101u8) && ((5u8 ^ 248u8) == 253u8))))))
}

#[verifier::opaque]
spec fn bytes_p_3_126() -> bool {
    (((((bit_of(53u8, 5) == 1u8) && ((142u8 ^ 199u8) == 73u8)) && (((53u8 ^ 173u8) == 152u8) && ((102u8 ^ 72u8) == 46u8))) && ((((223u8 ^ 227u8) == 60u8) && ((229u8 ^ 173u8) == 72u8)) && (((73u8 ^ 121u8) == 48u8) && ((138u8 ^ 9u8) == 131u8)))) && (((((148u8 ^ 255u8) == 107u8) && ((254u8 ^ 0u8) == 254u8)) && (((91u8 ^ 121u8) == 34u8) && ((71u8 ^ 229u8) == 162u8))) && ((((210u8 ^ 146u8) == 64u8) && ((73u8 ^ 15u8) == 70u8)) && (((112u8 ^ 70u8) == 54u8) && (((101u8 ^ 174u8) == 203u8) && ((253u8 ^ 240u8) == 13u8))))))
}

#[verifier::opaque]
spec fn bytes_p_3_127() -> bool {
    (bit_of(53u8, 6) == 0u8)
}

#[verifier::opaque]
spec fn bytes_p_3_128() -> bool {
    (bit_of(53u8, 7) == 0u8)
}

#[verifier::opaque]
spec fn bytes_p_4_1() -> bool {
    (((((bit_of(73u8, 0) == 1u8) && ((0u8 ^ 13u8) == 13u8)) && (((0u8 ^ 206u8) == 206u8) && ((0u8 ^ 96u8) == 96u8))) && ((((0u8 ^ 85u8) == 85u8) && ((0u8 ^ 172u8) == 172u8)) && (((0u8 ^ 232u8) == 232u8) && ((0u8 ^ 63u8) == 63u8)))) && (((((0u8 ^ 161u8) == 161u8) && ((0u8 ^ 28u8) == 28u8)) && (((0u8 ^ 154u8) == 154u8) && ((0u8 ^ 151u8) == 151u8))) && ((((0u8 ^ 169u8) == 169u8) && ((0u8 ^ 133u8) == 133u8)) && (((0u8 ^ 61u8) == 61u8) && ((0u8 ^ 5u8) == 5u8)))))
}

#[verifier::opaque]
spec fn bytes_p_4_2() -> bool {
    (bit_of(73u8, 1) == 0u8)
}

#[verifier::opaque]
spec fn bytes_p_4_3() -> bool {
    (bit_of(73u8, 2) == 0u8)
}

#[verifier::opaque]
spec fn bytes_p_4_4() -> bool {
    (((((bit_of(73u8, 3) == 1u8) && ((13u8 ^ 104u8) == 101u8)) && (((206u8 ^ 112u8) == 190u8) && ((96u8 ^ 6u8) == 102u8))) && ((((85u8 ^ 171u8) == 254u8) && ((172u8 ^ 98u8) == 206u8)) && (((232u8 ^ 69u8) == 173u8) && ((63u8 ^ 255u8) == 192u8)))) && (((((161u8 ^ 9u8) == 168u8) && ((28u8 ^ 229u8) == 249u8)) && (((154u8 ^ 208u8) == 74u8) && ((151u8 ^ 188u8) == 43u8))) && ((((169u8 ^ 76u8) == 229u8) && ((85u8 ^ 173u8) == 248u8)) && (((133u8 ^ 42u8) == 175u8) && (((61u8 ^ 236u8) == 209u8) && ((5u8 ^ 41u8) == 44u8))))))
}

#[verifier::opaque]
spec fn bytes_p_4_5() -> bool {
    (bit_of(73u8, 4) == 0u8)
}

#[verifier::opaque]
spec fn bytes_p_4_6() -> bool {
    (bit_of(73u8, 5) == 0u8)
}

#[verifier::opaque]
spec fn bytes_p_4_7() -> bool {
    (((((bit_of(73u8, 6) == 1u8) && ((101u8 ^ 199u8) == 162u8)) && (((190u8 ^ 131u8) == 61u8) && ((102u8 ^ 51u8) == 85u8))) && ((((254u8 ^ 88u8) == 166u8) && ((206u8 ^ 21u8) == 219u8)) && (((173u8 ^ 43u8) == 134u8) && ((192u8 ^ 250u8) == 58u8)))) && (((((168u8 ^ 79u8) == 231u8) && ((249u8 ^ 40u8) == 209u8)) && (((74u8 ^ 135u8) == 205u8) && ((43u8 ^ 230u8) == 205u8))) && ((((229u8 ^ 101u8) == 128u8) && ((248u8 ^ 106u8) == 146u8)) && (((175u8 ^ 85u8) == 250u8) && (((209u8 ^ 97u8) == 176u8) && ((44u8 ^ 79u8) == 99u8))))))
}

#[verifier::opaque]
spec fn bytes_p_4_8() -> bool {
    (bit_of(73u8, 7) == 0u8)
}

#[verifier::opaque]
spec fn bytes_p_4_9() -> bool {
    (bit_of(152u8, 0) == 0u8)
}

#[verifier::opaque]
spec fn bytes_p_4_10() -> bool {
    (bit_of(152u8, 1) == 0u8)
}

#[verifier::opaque]
spec fn bytes_p_4_11() -> bool {
    (bit_of(152u8, 2) == 0u8)
}

#[verifier::opaque]
spec fn bytes_p_4_12() -> bool {
    (((((bit_of(152u8, 3) == 1u8) && ((162u8 ^ 95u8) == 253u8)) && (((61u8 ^ 124u8) == 65u8) && ((85u8 ^ 112u8) == 37u8))) && ((((166u8 ^ 6u8) == 160u8) && ((219u8 ^ 171u8) == 112u8)) && (((134u8 ^ 98u8) == 228u8) && ((58u8 ^ 69u8) == 127u8)))) && (((((231u8 ^ 255u8) == 24u8) && ((209u8 ^ 9u8) == 216u8)) && (((205u8 ^ 229u8) == 40u8) && ((205u8 ^ 208u8) == 29u8))) && ((((128u8 ^ 188u8) == 60u8) && ((146u8 ^ 76u8) == 222u8)) && (((250u8 ^ 173u8) == 87u8) && (((176u8 ^ 42u8) == 154u8) && ((99u8 ^ 236u8) == 143u8))))))
}

#[verifier::opaque]
spec fn bytes_p_4_13() -> bool {
    (((((bit_of(152u8, 4) == 1u8) && ((253u8 ^ 57u8) == 196u8)) && (((65u8 ^ 248u8) == 185u8) && ((37u8 ^ 224u8) == 197u8))) && ((((160u8 ^ 12u8) == 172u8) && ((112u8 ^ 86u8) == 38u8)) && (((228u8 ^ 197u8) == 33u8) && ((127u8 ^ 138u8) == 245u8)))) && (((((24u8 ^ 254u8) == 230u8) && ((216u8 ^ 19u8) == 203u8)) && (((40u8 ^ 202u8) == 226u8) && ((29u8 ^ 161u8) == 188u8))) && ((((60u8 ^ 121u8) == 69u8) && ((222u8 ^ 153u8) == 71u8)) && (((87u8 ^ 90u8) == 13u8) && (((154u8 ^ 85u8) == 207u8) && ((143u8 ^ 216u8) == 87u8))))))
}

#[verifier::opaque]
spec fn bytes_p_4_14() -> bool {
    (bit_of(152u8, 5) == 0u8)
}

#[verifier::opaque]
spec fn bytes_p_4_15() -> bool {
    (bit_of(152u8, 6) == 0u8)
}

#[verifier::opaque]
spec fn bytes_p_4_16() -> bool {
    (((((bit_of(152u8, 7) == 1u8) && ((196u8 ^ 218u8) == 30u8)) && (((185u8 ^ 194u8) == 123u8) && ((197u8 ^ 7u8) == 194u8))) && ((((172u8 ^ 103u8) == 203u8) && ((38u8 ^ 176u8) == 150u8)) && (((33u8 ^ 42u8) == 11u8) && ((245u8 ^ 86u8) == 163u8)))) && (((((230u8 ^ 244u8) == 18u8) && ((203u8 ^ 159u8) == 84u8)) && (((226u8 ^ 80u8) == 178u8) && ((188u8 ^ 14u8) == 178u8))) && ((((69u8 ^ 205u8) == 136u8) && ((71u8 ^ 203u8) == 140u8)) && (((13u8 ^ 212u8) == 217u8) && (((207u8 ^ 170u8) == 101u8) && ((87u8 ^ 194u8) == 149u8))))))
}

#[verifier::opaque]
spec fn bytes_p_4_17() -> bool {
    (bit_of(46u8, 0) == 0u8)
}

#[verifier::opaque]
spec fn bytes_p_4_18() -> bool {
    (((((bit_of(46u8, 1) == 1u8) && ((30u8 ^ 225u8) == 255u8)) && (((123u8 ^ 10u8) == 113u8) && ((194u8 ^ 31u8) == 221u8))) && ((((203u8 ^ 156u8) == 87u8) && ((150u8 ^ 193u8) == 87u8)) && (((11u8 ^ 170u8) == 161u8) && ((163u8 ^ 88u8) == 251u8)))) && (((((18u8 ^ 209u8) == 195u8) && ((84u8 ^ 127u8) == 43u8)) && (((178u8 ^ 66u8) == 240u8) && ((178u8 ^ 57u8) == 139u8))) && ((((136u8 ^ 52u8) == 188u8) && ((140u8 ^ 47u8) == 163u8)) && (((217u8 ^ 83u8) == 138u8) && (((101u8 ^ 171u8) == 206u8) && ((149u8 ^ 10u8) == 159u8))))))
}

#[verifier::opaque]
spec fn bytes_p_4_19() -> bool {
    (((((bit_of(46u8, 2) == 1u8) && ((255u8 ^ 194u8) == 61u8)) && (((113u8 ^ 21u8) == 100u8) && ((221u8 ^ 62u8) == 227u8))) && ((((87u8 ^ 56u8) == 111u8) && ((87u8 ^ 131u8) == 212u8)) && (((161u8 ^ 85u8) == 244u8) && ((251u8 ^ 177u8) == 74u8)))) && (((((195u8 ^ 162u8) == 97u8) && ((43u8 ^ 255u8) == 212u8)) && (((240u8 ^ 132u8) == 116u8) && ((139u8 ^ 114u8) == 249u8))) && ((((188u8 ^ 104u8) == 212u8) && ((163u8 ^ 94u8) == 253u8)) && (((138u8 ^ 166u8) == 44u8) && (((206u8 ^ 86u8) == 152u8) && ((159u8 ^ 21u8) == 138u8))))))
}

#[verifier::opaque]
spec fn bytes_p_4_20() -> bool {
    (((((bit_of(46u8, 3) == 1u8) && ((61u8 ^ 132u8) == 185u8)) && (((100u8 ^ 43u8) == 79u8) && ((227u8 ^ 124u8) == 159u8))) && ((((111u8 ^ 112u8) == 31u8) && ((212u8 ^ 6u8) == 210u8)) && (((244u8 ^ 171u8) == 95u8) && ((74u8 ^ 98u8) == 40u8)))) && (((((97u8 ^ 69u8) == 36u8) && ((212u8 ^ 255u8) == 43u8)) && (((116u8 ^ 9u8) == 125u8) && ((249u8 ^ 229u8) == 28u8))) && ((((212u8 ^ 208u8) == 4u8) && ((253u8 ^ 188u8) == 65u8)) && (((44u8 ^ 76u8) == 96u8) && (((152u8 ^ 173u8) == 53u8) && ((138u8 ^ 42u8) == 160u8))))))
}

#[verifier::opaque]
spec fn bytes_p_4_21() -> bool {
    (bit_of(46u8, 4) == 0u8)
}

#[verifier::opaque]
spec fn bytes_p_4_22() -> bool {
    (((((bit_of(46u8, 5) == 1u8) && ((185u8 ^ 16u8) == 169u8)) && (((79u8 ^ 174u8) == 225u8) && ((159u8 ^ 240u8) == 111u8))) && ((((31u8 ^ 193u8) == 222u8) && ((210u8 ^ 25u8) == 203u8)) && (((95u8 ^ 172u8) == 243u8) && ((40u8 ^ 138u8) == 162u8)))) && (((((36u8 ^ 21u8) == 49u8) && ((43u8 ^ 253u8) == 214u8)) && (((125u8 ^ 39u8) == 90u8) && ((28u8 ^ 148u8) == 136u8))) && ((((4u8 ^ 67u8) == 71u8) && ((65u8 ^ 243u8) == 178u8)) && (((96u8 ^ 50u8) == 82u8) && (((53u8 ^ 181u8) == 128u8) && ((160u8 ^ 170u8) == 10u8))))))
}

#[verifier::opaque]
spec fn bytes_p_4_23() -> bool {
    (bit_of(46u8, 6) == 0u8)
}

#[verifier::opaque]
spec fn bytes_p_4_24() -> bool {
    (bit_of(46u8, 7) == 0u8)
}

#[verifier::opaque]
spec fn bytes_p_4_25() -> bool {
    (bit_of(60u8, 0) == 0u8)
}

#[verifier::opaque]
spec fn bytes_p_4_26() -> bool {
    (bit_of(60u8, 1) == 0u8)
}

#[verifier::opaque]
spec fn bytes_p_4_27() -> bool {
    (((((bit_of(60u8, 2) == 1u8) && ((169u8 ^ 235u8) == 66u8)) && (((225u8 ^ 200u8) == 41u8) && ((111u8 ^ 21u8) == 122u8))) && ((((222u8 ^ 62u8) == 224u8) && ((203u8 ^ 56u8) == 243u8)) && (((243u8 ^ 131u8) == 112u8) && ((162u8 ^ 85u8) == 247u8)))) && (((((49u8 ^ 177u8) == 128u8) && ((214u8 ^ 162u8) == 116u8)) && (((90u8 ^ 255u8) == 165u8) && ((136u8 ^ 132u8) == 12u8))) && ((((71u8 ^ 114u8) == 53u8) && ((178u8 ^ 104u8) == 218u8)) && (((82u8 ^ 94u8) == 12u8) && (((128u8 ^ 166u8) == 38u8) && ((10u8 ^ 86u8) == 92u8))))))
}

#[verifier::opaque]
spec fn bytes_p_4_28() -> bool {
    (((((bit_of(60u8, 3) == 1u8) && ((66u8 ^ 214u8) == 148u8)) && (((41u8 ^ 145u8) == 184u8) && ((122u8 ^ 43u8) == 81u8))) && ((((224u8 ^ 124u8) == 156u8) && ((243u8 ^ 112u8) == 131u8)) && (((112u8 ^ 6u8) == 118u8) && ((247u8 ^ 171u8) == 92u8)))) && (((((128u8 ^ 98u8) == 226u8) && ((116u8 ^ 69u8) == 49u8)) && (((165u8 ^ 255u8) == 90u8) && ((12u8 ^ 9u8) == 5u8))) && ((((53u8 ^ 229u8) == 208u8) && ((218u8 ^ 208u8) == 10u8)) && (((12u8 ^ 188u8) == 176u8) && (((38u8 ^ 76u8) == 106u8) && ((92u8 ^ 173u8) == 241u8))))))
}

#[verifier::opaque]
spec fn bytes_p_4_29() -> bool {
    (((((bit_of(60u8, 4) == 1u8) && ((148u8 ^ 43u8) == 191u8)) && (((184u8 ^ 35u8) == 155u8) && ((81u8 ^ 87u8) == 6u8))) && ((((156u8 ^ 248u8) == 100u8) && ((131u8 ^ 224u8) == 99u8)) && (((118u8 ^ 12u8) == 122u8) && ((92u8 ^ 86u8) == 10u8)))) && (((((226u8 ^ 197u8) == 39u8) && ((49u8 ^ 138u8) == 187u8)) && (((90u8 ^ 254u8) == 164u8) && ((5u8 ^ 19u8) == 22u8))) && ((((208u8 ^ 202u8) == 26u8) && ((10u8 ^ 161u8) == 171u8)) && (((176u8 ^ 121u8) == 201u8) && (((106u8 ^ 153u8) == 243u8) && ((241u8 ^ 90u8) == 171u8))))))
}

#[verifier::opaque]
spec fn bytes_p_4_30() -> bool {
    (((((bit_of(60u8, 5) == 1u8) && ((191u8 ^ 86u8) == 233u8)) && (((155u8 ^ 70u8) == 221u8) && ((6u8 ^ 174u8) == 168u8))) && ((((100u8 ^ 240u8) == 148u8) && ((99u8 ^ 193u8) == 162u8)) && (((122u8 ^ 25u8) == 99u8) && ((10u8 ^ 172u8) == 166u8)))) && (((((39u8 ^ 138u8) == 173u8) && ((187u8 ^ 21u8) == 174u8)) && (((164u8 ^ 253u8) == 89u8) && ((22u8 ^ 39u8) == 49u8))) && ((((26u8 ^ 148u8) == 142u8) && ((171u8 ^ 67u8) == 232u8)) && (((201u8 ^ 243u8) == 58u8) && (((243u8 ^ 50u8) == 193u8) && ((171u8 ^ 181u8) == 30u8))))))
}

#[verifier::opaque]
spec fn bytes_p_4_31() -> bool {
    (bit_of(60u8, 6) == 0u8)
}

#[verifier::opaque]
spec fn bytes_p_4_32() -> bool {
    (bit_of(60u8, 7) == 0u8)
}

#[verifier::opaque]
spec fn bytes_p_4_33() -> bool {
    (bit_of(72u8, 0) == 0u8)
}

#[verifier::opaque]
spec fn bytes_p_4_34() -> bool {
    (bit_of(72u8, 1) == 0u8)
}

#[verifier::opaque]
spec fn bytes_p_4_35() -> bool {
    (bit_of(72u8, 2) == 0u8)
}

#[verifier::opaque]
spec fn bytes_p_4_36() -> bool {
    (((((bit_of(72u8, 3) == 1u8) && ((233u8 ^ 195u8) == 42u8)) && (((221u8 ^ 131u8) == 94u8) && ((168u8 ^ 145u8) == 57u8))) && ((((148u8 ^ 43u8) == 191u8) && ((162u8 ^ 124u8) == 222u8)) && (((99u8 ^ 112u8) == 19u8) && ((166u8 ^ 6u8) == 160u8)))) && (((((173u8 ^ 171u8) == 6u8) && ((174u8 ^ 98u8) == 204u8)) && (((89u8 ^ 69u8) == 28u8) && ((49u8 ^ 255u8) == 206u8))) && ((((142u8 ^ 9u8) == 135u8) && ((232u8 ^ 229u8) == 13u8)) && (((58u8 ^ 208u8) == 234u8) && (((193u8 ^ 188u8) == 125u8) && ((30u8 ^ 76u8) == 82u8))))))
}

#[verifier::opaque]
spec fn bytes_p_4_37() -> bool {
    (bit_of(72u8, 4) == 0u8)
}

#[verifier::opaque]
spec fn bytes_p_4_38() -> bool {
    (bit_of(72u8, 5) == 0u8)
}

#[verifier::opaque]
spec fn bytes_p_4_39() -> bool {
    (((((bit_of(72u8, 6) == 1u8) && ((42u8 ^ 22u8) == 60u8)) && (((94u8 ^ 31u8) == 65u8) && ((57u8 ^ 140u8) == 181u8))) && ((((191u8 ^ 92u8) == 227u8) && ((222u8 ^ 225u8) == 63u8)) && (((19u8 ^ 131u8) == 144u8) && ((160u8 ^ 51u8) == 147u8)))) && (((((6u8 ^ 88u8) == 94u8) && ((204u8 ^ 21u8) == 217u8)) && (((28u8 ^ 43u8) == 55u8) && ((206u8 ^ 250u8) == 52u8))) && ((((135u8 ^ 79u8) == 200u8) && ((13u8 ^ 40u8) == 37u8)) && (((234u8 ^ 135u8) == 109u8) && (((125u8 ^ 230u8) == 155u8) && ((82u8 ^ 101u8) == 55u8))))))
}

#[verifier::opaque]
spec fn bytes_p_4_40() -> bool {
    (bit_of(72u8, 7) == 0u8)
}

#[verifier::opaque]
spec fn bytes_p_4_41() -> bool {
    (bit_of(48u8, 0) == 0u8)
}

#[verifier::opaque]
spec fn bytes_p_4_42() -> bool {
    (bit_of(48u8, 1) == 0u8)
}

#[verifier::opaque]
spec fn bytes_p_4_43() -> bool {
    (bit_of(48u8, 2) == 0u8)
}

#[verifier::opaque]
spec fn bytes_p_4_44() -> bool {
    (bit_of(48u8, 3) == 0u8)
}

#[verifier::opaque]
spec fn bytes_p_4_45() -> bool {
    (((((bit_of(48u8, 4) == 1u8) && ((60u8 ^ 79u8) == 115u8)) && (((65u8 ^ 201u8) == 136u8) && ((181u8 ^ 7u8) == 178u8))) && ((((227u8 ^ 35u8) == 192u8) && ((63u8 ^ 87u8) == 104u8)) && (((144u8 ^ 248u8) == 104u8) && ((147u8 ^ 224u8) == 115u8)))) && (((((94u8 ^ 12u8) == 82u8) && ((217u8 ^ 86u8) == 143u8)) && (((55u8 ^ 197u8) == 242u8) && ((52u8 ^ 138u8) == 190u8))) && ((((200u8 ^ 254u8) == 54u8) && ((37u8 ^ 19u8) == 54u8)) && (((109u8 ^ 202u8) == 167u8) && (((155u8 ^ 161u8) == 58u8) && ((55u8 ^ 121u8) == 78u8))))))
}

#[verifier::opaque]
spec fn bytes_p_4_46() -> bool {
    (((((bit_of(48u8, 5) == 1u8) && ((115u8 ^ 158u8) == 237u8)) && (((136u8 ^ 146u8) == 26u8) && ((178u8 ^ 15u8) == 189u8))) && ((((192u8 ^ 70u8) == 134u8) && ((104u8 ^ 174u8) == 198u8)) && (((104u8 ^ 240u8) == 152u8) && ((115u8 ^ 193u8) == 178u8)))) && (((((82u8 ^ 25u8) == 75u8) && ((143u8 ^ 172u8) == 35u8)) && (((242u8 ^ 138u8) == 120u8) && ((190u8 ^ 21u8) == 171u8))) && ((((54u8 ^ 253u8) == 203u8) && ((54u8 ^ 39u8) == 17u8)) && (((167u8 ^ 148u8) == 51u8) && (((58u8 ^ 67u8) == 121u8) && ((78u8 ^ 243u8) == 189u8))))))
}

#[verifier::opaque]
spec fn bytes_p_4_47() -> bool {
    (bit_of(48u8, 6) == 0u8)
}

#[verifier::opaque]
spec fn bytes_p_4_48() -> bool {
    (bit_of(48u8, 7) == 0u8)
}

#[verifier::opaque]
spec fn bytes_p_4_49() -> bool {
    (((((bit_of(131u8, 0) == 1u8) && ((237u8 ^ 101u8) == 136u8)) && (((26u8 ^ 151u8) == 141u8) && ((189u8 ^ 124u8) == 193u8))) && ((((134u8 ^ 48u8) == 182u8) && ((198u8 ^ 114u8) == 180u8)) && (((152u8 ^ 133u8) == 29u8) && ((178u8 ^ 15u8) == 189u8)))) && (((((75u8 ^ 206u8) == 133u8) && ((35u8 ^ 96u8) == 67u8)) && (((120u8 ^ 85u8) == 45u8) && ((171u8 ^ 172u8) == 7u8))) && ((((203u8 ^ 232u8) == 35u8) && ((17u8 ^ 63u8) == 46u8)) && (((51u8 ^ 161u8) == 146u8) && (((121u8 ^ 28u8) == 101u8) && ((189u8 ^ 154u8) == 39u8))))))
}

#[verifier::opaque]
spec fn bytes_p_4_50() -> bool {
    (((((bit_of(131u8, 1) == 1u8) && ((136u8 ^ 77u8) == 197u8)) && (((141u8 ^ 46u8) == 163u8) && ((193u8 ^ 249u8) == 56u8))) && ((((182u8 ^ 96u8) == 214u8) && ((180u8 ^ 228u8) == 80u8)) && (((29u8 ^ 10u8) == 23u8) && ((189u8 ^ 31u8) == 162u8)))) && (((((133u8 ^ 156u8) == 25u8) && ((67u8 ^ 193u8) == 130u8)) && (((45u8 ^ 170u8) == 135u8) && ((7u8 ^ 88u8) == 95u8))) && ((((35u8 ^ 209u8) == 242u8) && ((46u8 ^ 127u8) == 81u8)) && (((146u8 ^ 66u8) == 208u8) && (((101u8 ^ 57u8) == 92u8) && ((39u8 ^ 52u8) == 19u8))))))
}

#[verifier::opaque]
spec fn bytes_p_4_51() -> bool {
    (bit_of(131u8, 2) == 0u8)
}

#[verifier::opaque]
spec fn bytes_p_4_52() -> bool {
    (bit_of(131u8, 3) == 0u8)
}

#[verifier::opaque]
spec fn bytes_p_4_53() -> bool {
    (bit_of(131u8, 4) == 0u8)
}

#[verifier::opaque]
spec fn bytes_p_4_54() -> bool {
    (bit_of(131u8, 5) == 0u8)
}

#[verifier::opaque]
spec fn bytes_p_4_55() -> bool {
    (bit_of(131u8, 6) == 0u8)
}

#[verifier::opaque]
spec fn bytes_p_4_56() -> bool {
    (((((bit_of(131u8, 7) == 1u8) && ((197u8 ^ 227u8) == 38u8)) && (((163u8 ^ 149u8) == 54u8) && ((56u8 ^ 75u8) == 115u8))) && ((((214u8 ^ 62u8) == 232u8) && ((80u8 ^ 24u8) == 72u8)) && (((23u8 ^ 185u8) == 174u8) && ((162u8 ^ 194u8) == 96u8)))) && (((((25u8 ^ 7u8) == 30u8) && ((130u8 ^ 103u8) == 229u8)) && (((135u8 ^ 176u8) == 55u8) && ((95u8 ^ 42u8) == 117u8))) && ((((242u8 ^ 86u8) == 164u8) && ((81u8 ^ 244u8) == 165u8)) && (((208u8 ^ 159u8) == 79u8) && (((92u8 ^ 80u8) == 12u8) && ((19u8 ^ 14u8) == 29u8))))))
}

#[verifier::opaque]
spec fn bytes_p_4_57() -> bool {
    (((((bit_of(107u8, 0) == 1u8) && ((38u8 ^ 198u8) == 224u8)) && (((54u8 ^ 43u8) == 29u8) && ((115u8 ^ 151u8) == 228u8))) && ((((232u8 ^ 124u8) == 148u8) && ((72u8 ^ 48u8) == 120u8)) && (((174u8 ^ 114u8) == 220u8) && ((96u8 ^ 133u8) == 229u8)))) && (((((30u8 ^ 15u8) == 17u8) && ((229u8 ^ 206u8) == 43u8)) && (((55u8 ^ 96u8) == 87u8) && ((117u8 ^ 85u8) == 32u8))) && ((((164u8 ^ 172u8) == 8u8) && ((165u8 ^ 232u8) == 77u8)) && (((79u8 ^ 63u8) == 112u8) && (((12u8 ^ 161u8) == 173u8) && ((29u8 ^ 28u8) == 1u8))))))
}

#[verifier::opaque]
spec fn bytes_p_4_58() -> bool {
    (((((bit_of(107u8, 1) == 1u8) && ((224u8 ^ 140u8) == 108u8)) && (((29u8 ^ 87u8) == 74u8) && ((228u8 ^ 46u8) == 202u8))) && ((((148u8 ^ 249u8) == 109u8) && ((120u8 ^ 96u8) == 24u8)) && (((220u8 ^ 228u8) == 56u8) && ((229u8 ^ 10u8) == 239u8)))) && (((((17u8 ^ 31u8) == 14u8) && ((43u8 ^ 156u8) == 183u8)) && (((87u8 ^ 193u8) == 150u8) && ((32u8 ^ 170u8) == 138u8))) && ((((8u8 ^ 88u8) == 80u8) && ((77u8 ^ 209u8) == 156u8)) && (((112u8 ^ 127u8) == 15u8) && (((173u8 ^ 66u8) == 239u8) && ((1u8 ^ 57u8) == 56u8))))))
}

#[verifier::opaque]
spec fn bytes_p_4_59() -> bool {
    (bit_of(107u8, 2) == 0u8)
}

#[verifier::opaque]
spec fn bytes_p_4_60() -> bool {
    (((((bit_of(107u8, 3) == 1u8) && ((108u8 ^ 48u8) == 92u8)) && (((74u8 ^ 94u8) == 20u8) && ((202u8 ^ 185u8) == 115u8))) && ((((109u8 ^ 228u8) == 137u8) && ((24u8 ^ 131u8) == 155u8)) && (((56u8 ^ 145u8) == 169u8) && ((239u8 ^ 43u8) == 196u8)))) && (((((14u8 ^ 124u8) == 114u8) && ((183u8 ^ 112u8) == 199u8)) && (((150u8 ^ 6u8) == 144u8) && ((138u8 ^ 171u8) == 33u8))) && ((((80u8 ^ 98u8) == 50u8) && ((156u8 ^ 69u8) == 217u8)) && (((15u8 ^ 255u8) == 240u8) && (((239u8 ^ 9u8) == 230u8) && ((56u8 ^ 229u8) == 221u8))))))
}

#[verifier::opaque]
spec fn bytes_p_4_61() -> bool {
    (bit_of(107u8, 4) == 0u8)
}

#[verifier::opaque]
spec fn bytes_p_4_62() -> bool {
    (((((bit_of(107u8, 5) == 1u8) && ((92u8 ^ 73u8) == 21u8)) && (((20u8 ^ 121u8) == 109u8) && ((115u8 ^ 229u8) == 150u8))) && ((((137u8 ^ 146u8) == 27u8) && ((155u8 ^ 15u8) == 148u8)) && (((169u8 ^ 70u8) == 239u8) && ((196u8 ^ 174u8) == 106u8)))) && (((((114u8 ^ 240u8) == 130u8) && ((199u8 ^ 193u8) == 6u8)) && (((144u8 ^ 25u8) == 137u8) && ((33u8 ^ 172u8) == 141u8))) && ((((50u8 ^ 138u8) == 184u8) && ((217u8 ^ 21u8) == 204u8)) && (((240u8 ^ 253u8) == 13u8) && (((230u8 ^ 39u8) == 193u8) && ((221u8 ^ 148u8) == 73u8))))))
}

#[verifier::opaque]
spec fn bytes_p_4_63() -> bool {
    (((((bit_of(107u8, 6) == 1u8) && ((21u8 ^ 21u8) == 0u8)) && (((109u8 ^ 242u8) == 159u8) && ((150u8 ^ 202u8) == 92u8))) && ((((27u8 ^ 37u8) == 62u8) && ((148u8 ^ 31u8) == 139u8)) && (((239u8 ^ 140u8) == 99u8) && ((106u8 ^ 92u8) == 54u8)))) && (((((130u8 ^ 225u8) == 99u8) && ((6u8 ^ 131u8) == 133u8)) && (((137u8 ^ 51u8) == 186u8) && ((141u8 ^ 88u8) == 213u8))) && ((((184u8 ^ 21u8) == 173u8) && ((204u8 ^ 43u8) == 231u8)) && (((13u8 ^ 250u8) == 247u8) && (((193u8 ^ 79u8) == 142u8) && ((73u8 ^ 40u8) == 97u8))))))
}

#[verifier::opaque]
spec fn bytes_p_4_64() -> bool {
    (bit_of(107u8, 7) == 0u8)
}

#[verifier::opaque]
spec fn bytes_p_4_65() -> bool {
    (bit_of(254u8, 0) == 0u8)
}

#[verifier::opaque]
spec fn bytes_p_4_66() -> bool {
    (((((bit_of(254u8, 1) == 1u8) && ((0u8 ^ 47u8) == 47u8)) && (((159u8 ^ 144u8) == 15u8) && ((92u8 ^ 87u8) == 11u8))) && ((((62u8 ^ 46u8) == 16u8) && ((139u8 ^ 249u8) == 114u8)) && (((99u8 ^ 96u8) == 3u8) && ((54u8 ^ 228u8) == 210u8)))) && (((((99u8 ^ 10u8) == 105u8) && ((133u8 ^ 31u8) == 154u8)) && (((186u8 ^ 156u8) == 38u8) && ((213u8 ^ 193u8) == 20u8))) && ((((173u8 ^ 170u8) == 7u8) && ((231u8 ^ 88u8) == 191u8)) && (((247u8 ^ 209u8) == 38u8) && (((142u8 ^ 127u8) == 241u8) && ((97u8 ^ 66u8) == 35u8))))))
}

#[verifier::opaque]
spec fn bytes_p_4_67() -> bool {
    (((((bit_of(254u8, 2) == 1u8) && ((47u8 ^ 94u8) == 113u8)) && (((15u8 ^ 32u8) == 47u8) && ((11u8 ^ 175u8) == 164u8))) && ((((16u8 ^ 92u8) == 76u8) && ((114u8 ^ 242u8) == 128u8)) && (((3u8 ^ 193u8) == 194u8) && ((210u8 ^ 200u8) == 26u8)))) && (((((105u8 ^ 21u8) == 124u8) && ((154u8 ^ 62u8) == 164u8)) && (((38u8 ^ 56u8) == 30u8) && ((20u8 ^ 131u8) == 151u8))) && ((((7u8 ^ 85u8) == 82u8) && ((191u8 ^ 177u8) == 14u8)) && (((38u8 ^ 162u8) == 132u8) && (((241u8 ^ 255u8) == 14u8) && ((35u8 ^ 132u8) == 167u8))))))
}

#[verifier::opaque]
spec fn bytes_p_4_68() -> bool {
    (((((bit_of(254u8, 3) == 1u8) && ((113u8 ^ 59u8) == 74u8)) && (((47u8 ^ 64u8) == 111u8) && ((164u8 ^ 94u8) == 250u8))) && ((((76u8 ^ 185u8) == 245u8) && ((128u8 ^ 228u8) == 100u8)) && (((194u8 ^ 131u8) == 65u8) && ((26u8 ^ 145u8) == 139u8)))) && (((((124u8 ^ 43u8) == 87u8) && ((164u8 ^ 124u8) == 216u8)) && (((30u8 ^ 112u8) == 110u8) && ((151u8 ^ 6u8) == 145u8))) && ((((82u8 ^ 171u8) == 249u8) && ((14u8 ^ 98u8) == 108u8)) && (((132u8 ^ 69u8) == 193u8) && (((14u8 ^ 255u8) == 241u8) && ((167u8 ^ 9u8) == 174u8))))))
}

#[verifier::opaque]
spec fn bytes_p_4_69() -> bool {
    (((((bit_of(254u8, 4) == 1u8) && ((74u8 ^ 118u8) == 60u8)) && (((111u8 ^ 128u8) == 239u8) && ((250u8 ^ 188u8) == 70u8))) && ((((245u8 ^ 114u8) == 135u8) && ((100u8 ^ 201u8) == 173u8)) && (((65u8 ^ 7u8) == 70u8) && ((139u8 ^ 35u8) == 168u8)))) && (((((87u8 ^ 87u8) == 0u8) && ((216u8 ^ 248u8) == 32u8)) && (((110u8 ^ 224u8) == 142u8) && ((145u8 ^ 12u8) == 157u8))) && ((((249u8 ^ 86u8) == 175u8) && ((108u8 ^ 197u8) == 169u8)) && (((193u8 ^ 138u8) == 75u8) && (((241u8 ^ 254u8) == 15u8) && ((174u8 ^ 19u8) == 189u8))))))
}

#[verifier::opaque]
spec fn bytes_p_4_70() -> bool {
    (((((bit_of(254u8, 5) == 1u8) && ((60u8 ^ 236u8) == 208u8)) && (((239u8 ^ 0u8) == 239u8) && ((70u8 ^ 121u8) == 63u8))) && ((((135u8 ^ 229u8) == 98u8) && ((173u8 ^ 146u8) == 63u8)) && (((70u8 ^ 15u8) == 73u8) && ((168u8 ^ 70u8) == 238u8)))) && (((((0u8 ^ 174u8) == 174u8) && ((32u8 ^ 240u8) == 208u8)) && (((142u8 ^ 193u8) == 79u8) && ((157u8 ^ 25u8) == 132u8))) && ((((175u8 ^ 172u8) == 3u8) && ((169u8 ^ 138u8) == 35u8)) && (((75u8 ^ 21u8) == 94u8) && (((15u8 ^ 253u8) == 242u8) && ((189u8 ^ 39u8) == 154u8))))))
}

#[verifier::opaque]
spec fn bytes_p_4_71() -> bool {
    (((((bit_of(254u8, 6) == 1u8) && ((208u8 ^ 216u8) == 8u8)) && (((239u8 ^ 1u8) == 238u8) && ((63u8 ^ 242u8) == 205u8))) && ((((98u8 ^ 202u8) == 168u8) && ((63u8 ^ 37u8) == 26u8)) && (((73u8 ^ 31u8) == 86u8) && ((238u8 ^ 140u8) == 98u8)))) && (((((174u8 ^ 92u8) == 242u8) && ((208u8 ^ 225u8) == 49u8)) && (((79u8 ^ 131u8) == 204u8) && ((132u8 ^ 51u8) == 183u8))) && ((((3u8 ^ 88u8) == 91u8) && ((35u8 ^ 21u8) == 54u8)) && (((94u8 ^ 43u8) == 117u8) && (((242u8 ^ 250u8) == 8u8) && ((154u8 ^ 79u8) == 213u8))))))
}

#[verifier::opaque]
spec fn bytes_p_4_72() -> bool {
    (((((bit_of(254u8, 7) == 1u8) && ((8u8 ^ 176u8) == 184u8)) && (((238u8 ^ 3u8) == 237u8) && ((205u8 ^ 228u8) == 41u8))) && ((((168u8 ^ 149u8) == 61u8) && ((26u8 ^ 75u8) == 81u8)) && (((86u8 ^ 62u8) == 104u8) && ((98u8 ^ 24u8) == 122u8)))) && (((((242u8 ^ 185u8) == 75u8) && ((49u8 ^ 194u8) == 243u8)) && (((204u8 ^ 7u8) == 203u8) && ((183u8 ^ 103u8) == 208u8))) && ((((91u8 ^ 176u8) == 235u8) && ((54u8 ^ 42u8) == 28u8)) && (((117u8 ^ 86u8) == 35u8) && (((8u8 ^ 244u8) == 252u8) && ((213u8 ^ 159u8) == 74u8))))))
}

#[verifier::opaque]
spec fn bytes_p_4_73() -> bool {
    (bit_of(34u8, 0) == 0u8)
}

#[verifier::opaque]
spec fn bytes_p_4_74() -> bool {
    (((((bit_of(34u8, 1) == 1u8) && ((184u8 ^ 206u8) == 118u8)) && (((237u8 ^ 15u8) == 226u8) && ((41u8 ^ 144u8) == 185u8))) && ((((61u8 ^ 87u8) == 106u8) && ((81u8 ^ 46u8) == 127u8)) && (((104u8 ^ 249u8) == 145u8) && ((122u8 ^ 96u8) == 26u8)))) && (((((75u8 ^ 228u8) == 175u8) && ((243u8 ^ 10u8) == 249u8)) && (((203u8 ^ 31u8) == 212u8) && ((208u8 ^ 156u8) == 76u8))) && ((((235u8 ^ 193u8) == 42u8) && ((28u8 ^ 170u8) == 182u8)) && (((35u8 ^ 88u8) == 123u8) && (((252u8 ^ 209u8) == 45u8) && ((74u8 ^ 127u8) == 53u8))))))
}

#[verifier::opaque]
spec fn bytes_p_4_75() -> bool {
    (bit_of(34u8, 2) == 0u8)
}

#[verifier::opaque]
spec fn bytes_p_4_76() -> bool {
    (bit_of(34u8, 3) == 0u8)
}

#[verifier::opaque]
spec fn bytes_p_4_77() -> bool {
    (bit_of(34u8, 4) == 0u8)
}

#[verifier::opaque]
spec fn bytes_p_4_78() -> bool {
    (((((bit_of(34u8, 5) == 1u8) && ((118u8 ^ 117u8) == 3u8)) && (((226u8 ^ 255u8) == 29u8) && ((185u8 ^ 0u8) == 185u8))) && ((((106u8 ^ 121u8) == 19u8) && ((127u8 ^ 229u8) == 154u8)) && (((145u8 ^ 146u8) == 3u8) && ((26u8 ^ 15u8) == 21u8)))) && (((((175u8 ^ 70u8) == 233u8) && ((249u8 ^ 174u8) == 87u8)) && (((212u8 ^ 240u8) == 36u8) && ((76u8 ^ 193u8) == 141u8))) && ((((42u8 ^ 25u8) == 51u8) && ((182u8 ^ 172u8) == 26u8)) && (((123u8 ^ 138u8) == 241u8) && (((45u8 ^ 21u8) == 56u8) && ((53u8 ^ 253u8) == 200u8))))))
}

#[verifier::opaque]
spec fn bytes_p_4_79() -> bool {
    (bit_of(34u8, 6) == 0u8)
}

#[verifier::opaque]
spec fn bytes_p_4_80() -> bool {
    (bit_of(34u8, 7) == 0u8)
}

#[verifier::opaque]
spec fn bytes_p_4_81() -> bool {
    (bit_of(162u8, 0) == 0u8)
}

#[verifier::opaque]
spec fn bytes_p_4_82() -> bool {
    (((((bit_of(162u8, 1) == 1u8) && ((3u8 ^ 253u8) == 254u8)) && (((29u8 ^ 240u8) == 237u8) && ((185u8 ^ 15u8) == 182u8))) && ((((19u8 ^ 144u8) == 131u8) && ((154u8 ^ 87u8) == 205u8)) && (((3u8 ^ 46u8) == 45u8) && ((21u8 ^ 249u8) == 236u8)))) && (((((233u8 ^ 96u8) == 137u8) && ((87u8 ^ 228u8) == 179u8)) && (((36u8 ^ 10u8) == 46u8) && ((141u8 ^ 31u8) == 146u8))) && ((((51u8 ^ 156u8) == 175u8) && ((26u8 ^ 193u8) == 219u8)) && (((241u8 ^ 170u8) == 91u8) && (((56u8 ^ 88u8) == 96u8) && ((200u8 ^ 209u8) == 25u8))))))
}

#[verifier::opaque]
spec fn bytes_p_4_83() -> bool {
    (bit_of(162u8, 2) == 0u8)
}

#[verifier::opaque]
spec fn bytes_p_4_84() -> bool {
    (bit_of(162u8, 3) == 0u8)
}

#[verifier::opaque]
spec fn bytes_p_4_85() -> bool {
    (bit_of(162u8, 4) == 0u8)
}

#[verifier::opaque]
spec fn bytes_p_4_86() -> bool {
    (((((bit_of(162u8, 5) == 1u8) && ((254u8 ^ 115u8) == 141u8)) && (((237u8 ^ 9u8) == 228u8) && ((182u8 ^ 255u8) == 73u8))) && ((((131u8 ^ 0u8) == 131u8) && ((205u8 ^ 121u8) == 180u8)) && (((45u8 ^ 229u8) == 200u8) && ((236u8 ^ 146u8) == 126u8)))) && (((((137u8 ^ 15u8) == 134u8) && ((179u8 ^ 70u8) == 245u8)) && (((46u8 ^ 174u8) == 128u8) && ((146u8 ^ 240u8) == 98u8))) && ((((175u8 ^ 193u8) == 110u8) && ((219u8 ^ 25u8) == 194u8)) && (((91u8 ^ 172u8) == 247u8) && (((96u8 ^ 138u8) == 234u8) && ((25u8 ^ 21u8) == 12u8))))))
}

#[verifier::opaque]
spec fn bytes_p_4_87() -> bool {
    (bit_of(162u8, 6) == 0u8)
}

#[verifier::opaque]
spec fn bytes_p_4_88() -> bool {
    (((((bit_of(162u8, 7) == 1u8) && ((141u8 ^ 204u8) == 65u8)) && (((228u8 ^ 37u8) == 193u8) && ((73u8 ^ 252u8) == 181u8))) && ((((131u8 ^ 3u8) == 128u8) && ((180u8 ^ 228u8) == 80u8)) && (((200u8 ^ 149u8) == 93u8) && ((126u8 ^ 75u8) == 53u8)))) && (((((134u8 ^ 62u8) == 184u8) && ((245u8 ^ 24u8) == 237u8)) && (((128u8 ^ 185u8) == 57u8) && ((98u8 ^ 194u8) == 160u8))) && ((((110u8 ^ 7u8) == 105u8) && ((194u8 ^ 103u8) == 165u8)) && (((247u8 ^ 176u8) == 71u8) && (((234u8 ^ 42u8) == 192u8) && ((12u8 ^ 86u8) == 90u8))))))
}

#[verifier::opaque]
spec fn bytes_p_4_89() -> bool {
    (bit_of(64u8, 0) == 0u8)
}

#[verifier::opaque]
spec fn bytes_p_4_90() -> bool {
    (bit_of(64u8, 1) == 0u8)
}

#[verifier::opaque]
spec fn bytes_p_4_91() -> bool {
    (bit_of(64u8, 2) == 0u8)
}

#[verifier::opaque]
spec fn bytes_p_4_92() -> bool {
    (bit_of(64u8, 3) == 0u8)
}

#[verifier::opaque]
spec fn bytes_p_4_93() -> bool {
    (bit_of(64u8, 4) == 0u8)
}

#[verifier::opaque]
spec fn bytes_p_4_94() -> bool {
    (bit_of(64u8, 5) == 0u8)
}

#[verifier::opaque]
spec fn bytes_p_4_95() -> bool {
    (((((bit_of(64u8, 6) == 1u8) && ((65u8 ^ 81u8) == 16u8)) && (((193u8 ^ 243u8) == 50u8) && ((181u8 ^ 18u8) == 167u8))) && ((((128u8 ^ 254u8) == 126u8) && ((80u8 ^ 1u8) == 81u8)) && (((93u8 ^ 242u8) == 175u8) && ((53u8 ^ 202u8) == 255u8)))) && (((((184u8 ^ 37u8) == 157u8) && ((237u8 ^ 31u8) == 242u8)) && (((57u8 ^ 140u8) == 181u8) && ((160u8 ^ 92u8) == 252u8))) && ((((105u8 ^ 225u8) == 136u8) && ((165u8 ^ 131u8) == 38u8)) && (((71u8 ^ 51u8) == 116u8) && (((192u8 ^ 88u8) == 152u8) && ((90u8 ^ 21u8) == 79u8))))))
}

#[verifier::opaque]
spec fn bytes_p_4_96() -> bool {
    (bit_of(64u8, 7) == 0u8)
}

#[verifier::opaque]
spec fn bytes_p_4_97() -> bool {
    (bit_of(70u8, 0) == 0u8)
}

#[verifier::opaque]
spec fn bytes_p_4_98() -> bool {
    (((((bit_of(70u8, 1) == 1u8) && ((16u8 ^ 136u8) == 152u8)) && (((50u8 ^ 154u8) == 168u8) && ((167u8 ^ 151u8) == 48u8))) && ((((126u8 ^ 240u8) == 142u8) && ((81u8 ^ 15u8) == 94u8)) && (((175u8 ^ 144u8) == 63u8) && ((255u8 ^ 87u8) == 168u8)))) && (((((157u8 ^ 46u8) == 179u8) && ((242u8 ^ 249u8) == 11u8)) && (((181u8 ^ 96u8) == 213u8) && ((252u8 ^ 228u8) == 24u8))) && ((((136u8 ^ 10u8) == 130u8) && ((38u8 ^ 31u8) == 57u8)) && (((116u8 ^ 156u8) == 232u8) && (((152u8 ^ 193u8) == 89u8) && ((79u8 ^ 170u8) == 229u8))))))
}

#[verifier::opaque]
spec fn bytes_p_4_99() -> bool {
    (((((bit_of(70u8, 2) == 1u8) && ((152u8 ^ 151u8) == 15u8)) && (((168u8 ^ 53u8) == 157u8) && ((48u8 ^ 47u8) == 31u8))) && ((((142u8 ^ 225u8) == 111u8) && ((94u8 ^ 31u8) == 65u8)) && (((63u8 ^ 32u8) == 31u8) && ((168u8 ^ 175u8) == 7u8)))) && (((((179u8 ^ 92u8) == 239u8) && ((11u8 ^ 242u8) == 249u8)) && (((213u8 ^ 193u8) == 20u8) && ((24u8 ^ 200u8) == 208u8))) && ((((130u8 ^ 21u8) == 151u8) && ((57u8 ^ 62u8) == 7u8)) && (((232u8 ^ 56u8) == 208u8) && (((89u8 ^ 131u8) == 218u8) && ((229u8 ^ 85u8) == 176u8))))))
}

#[verifier::opaque]
spec fn bytes_p_4_100() -> bool {
    (bit_of(70u8, 3) == 0u8)
}

#[verifier::opaque]
spec fn bytes_p_4_101() -> bool {
    (bit_of(70u8, 4) == 0u8)
}

#[verifier::opaque]
spec fn bytes_p_4_102() -> bool {
    (bit_of(70u8, 5) == 0u8)
}

#[verifier::opaque]
spec fn bytes_p_4_103() -> bool {
    (((((bit_of(70u8, 6) == 1u8) && ((15u8 ^ 235u8) == 228u8)) && (((157u8 ^ 91u8) == 198u8) && ((31u8 ^ 243u8) == 236u8))) && ((((111u8 ^ 18u8) == 125u8) && ((65u8 ^ 254u8) == 191u8)) && (((31u8 ^ 1u8) == 30u8) && ((7u8 ^ 242u8) == 245u8)))) && (((((239u8 ^ 202u8) == 37u8) && ((249u8 ^ 37u8) == 220u8)) && (((20u8 ^ 31u8) == 11u8) && ((208u8 ^ 140u8) == 92u8))) && ((((151u8 ^ 92u8) == 203u8) && ((7u8 ^ 225u8) == 230u8)) && (((208u8 ^ 131u8) == 83u8) && (((218u8 ^ 51u8) == 233u8) && ((176u8 ^ 88u8) == 232u8))))))
}

#[verifier::opaque]
spec fn bytes_p_4_104() -> bool {
    (bit_of(70u8, 7) == 0u8)
}

#[verifier::opaque]
spec fn bytes_p_4_105() -> bool {
    (bit_of(54u8, 0) == 0u8)
}

#[verifier::opaque]
spec fn bytes_p_4_106() -> bool {
    (((((bit_of(54u8, 1) == 1u8) && ((228u8 ^ 86u8) == 178u8)) && (((198u8 ^ 222u8) == 24u8) && ((236u8 ^ 154u8) == 118u8))) && ((((125u8 ^ 151u8) == 234u8) && ((191u8 ^ 240u8) == 79u8)) && (((30u8 ^ 15u8) == 17u8) && ((245u8 ^ 144u8) == 101u8)))) && (((((37u8 ^ 87u8) == 114u8) && ((220u8 ^ 46u8) == 242u8)) && (((11u8 ^ 249u8) == 242u8) && ((92u8 ^ 96u8) == 60u8))) && ((((203u8 ^ 228u8) == 47u8) && ((230u8 ^ 10u8) == 236u8)) && (((83u8 ^ 31u8) == 76u8) && (((233u8 ^ 156u8) == 117u8) && ((232u8 ^ 193u8) == 41u8))))))
}

#[verifier::opaque]
spec fn bytes_p_4_107() -> bool {
    (((((bit_of(54u8, 2) == 1u8) && ((178u8 ^ 43u8) == 153u8)) && (((24u8 ^ 188u8) == 164u8) && ((118u8 ^ 53u8) == 67u8))) && ((((234u8 ^ 47u8) == 197u8) && ((79u8 ^ 225u8) == 174u8)) && (((17u8 ^ 31u8) == 14u8) && ((101u8 ^ 32u8) == 69u8)))) && (((((114u8 ^ 175u8) == 221u8) && ((242u8 ^ 92u8) == 174u8)) && (((242u8 ^ 242u8) == 0u8) && ((60u8 ^ 193u8) == 253u8))) && ((((47u8 ^ 200u8) == 231u8) && ((236u8 ^ 21u8) == 249u8)) && (((76u8 ^ 62u8) == 114u8) && (((117u8 ^ 56u8) == 77u8) && ((41u8 ^ 131u8) == 170u8))))))
}

#[verifier::opaque]
spec fn bytes_p_4_108() -> bool {
    (bit_of(54u8, 3) == 0u8)
}

#[verifier::opaque]
spec fn bytes_p_4_109() -> bool {
    (((((bit_of(54u8, 4) == 1u8) && ((153u8 ^ 162u8) == 59u8)) && (((164u8 ^ 241u8) == 85u8) && ((67u8 ^ 214u8) == 149u8))) && ((((197u8 ^ 188u8) == 121u8) && ((174u8 ^ 132u8) == 42u8)) && (((14u8 ^ 127u8) == 113u8) && ((69u8 ^ 128u8) == 197u8)))) && (((((221u8 ^ 188u8) == 97u8) && ((174u8 ^ 114u8) == 220u8)) && (((0u8 ^ 201u8) == 201u8) && ((253u8 ^ 7u8) == 250u8))) && ((((231u8 ^ 35u8) == 196u8) && ((249u8 ^ 87u8) == 174u8)) && (((114u8 ^ 248u8) == 138u8) && (((77u8 ^ 224u8) == 173u8) && ((170u8 ^ 12u8) == 166u8))))))
}

#[verifier::opaque]
spec fn bytes_p_4_110() -> bool {
    (((((bit_of(54u8, 5) == 1u8) && ((59u8 ^ 68u8) == 127u8)) && (((85u8 ^ 227u8) == 182u8) && ((149u8 ^ 173u8) == 56u8))) && ((((121u8 ^ 121u8) == 0u8) && ((42u8 ^ 9u8) == 35u8)) && (((113u8 ^ 255u8) == 142u8) && ((197u8 ^ 0u8) == 197u8)))) && (((((97u8 ^ 121u8) == 24u8) && ((220u8 ^ 229u8) == 57u8)) && (((201u8 ^ 146u8) == 91u8) && ((250u8 ^ 15u8) == 245u8))) && ((((196u8 ^ 70u8) == 130u8) && ((174u8 ^ 174u8) == 0u8)) && (((138u8 ^ 240u8) == 122u8) && (((173u8 ^ 193u8) == 108u8) && ((166u8 ^ 25u8) == 191u8))))))
}

#[verifier::opaque]
spec fn bytes_p_4_111() -> bool {
    (bit_of(54u8, 6) == 0u8)
}

#[verifier::opaque]
spec fn bytes_p_4_112() -> bool {
    (bit_of(54u8, 7) == 0u8)
}

#[verifier::opaque]
spec fn bytes_p_4_113() -> bool {
    (((((bit_of(203u8, 0) == 1u8) && ((127u8 ^ 32u8) == 95u8)) && (((182u8 ^ 26u8) == 172u8) && ((56u8 ^ 111u8) == 87u8))) && ((((0u8 ^ 205u8) == 205u8) && ((35u8 ^ 75u8) == 104u8)) && (((142u8 ^ 248u8) == 118u8) && ((197u8 ^ 7u8) == 194u8)))) && (((((24u8 ^ 200u8) == 208u8) && ((57u8 ^ 43u8) == 18u8)) && (((91u8 ^ 151u8) == 204u8) && ((245u8 ^ 124u8) == 137u8))) && ((((130u8 ^ 48u8) == 178u8) && ((0u8 ^ 114u8) == 114u8)) && (((122u8 ^ 133u8) == 255u8) && (((108u8 ^ 15u8) == 99u8) && ((191u8 ^ 206u8) == 113u8))))))
}

#[verifier::opaque]
spec fn bytes_p_4_114() -> bool {
    (((((bit_of(203u8, 1) == 1u8) && ((95u8 ^ 199u8) == 152u8)) && (((172u8 ^ 52u8) == 152u8) && ((87u8 ^ 222u8) == 137u8))) && ((((205u8 ^ 154u8) == 87u8) && ((104u8 ^ 151u8) == 255u8)) && (((118u8 ^ 240u8) == 134u8) && ((194u8 ^ 15u8) == 205u8)))) && (((((208u8 ^ 144u8) == 64u8) && ((18u8 ^ 87u8) == 69u8)) && (((204u8 ^ 46u8) == 226u8) && ((137u8 ^ 249u8) == 112u8))) && ((((178u8 ^ 96u8) == 210u8) && ((114u8 ^ 228u8) == 150u8)) && (((255u8 ^ 10u8) == 245u8) && (((99u8 ^ 31u8) == 124u8) && ((113u8 ^ 156u8) == 237u8))))))
}

#[verifier::opaque]
spec fn bytes_p_4_115() -> bool {
    (bit_of(203u8, 2) == 0u8)
}

#[verifier::opaque]
spec fn bytes_p_4_116() -> bool {
    (((((bit_of(203u8, 3) == 1u8) && ((152u8 ^ 18u8) == 138u8)) && (((152u8 ^ 210u8) == 74u8) && ((137u8 ^ 120u8) == 241u8))) && ((((87u8 ^ 107u8) == 60u8) && ((255u8 ^ 94u8) == 161u8)) && (((134u8 ^ 194u8) == 68u8) && ((205u8 ^ 63u8) == 242u8)))) && (((((64u8 ^ 64u8) == 0u8) && ((69u8 ^ 94u8) == 27u8)) && (((226u8 ^ 185u8) == 91u8) && ((112u8 ^ 228u8) == 148u8))) && ((((210u8 ^ 131u8) == 81u8) && ((150u8 ^ 145u8) == 7u8)) && (((245u8 ^ 43u8) == 222u8) && (((124u8 ^ 124u8) == 0u8) && ((237u8 ^ 112u8) == 157u8))))))
}

#[verifier::opaque]
spec fn bytes_p_4_117() -> bool {
    (bit_of(203u8, 4) == 0u8)
}

#[verifier::opaque]
spec fn bytes_p_4_118() -> bool {
    (bit_of(203u8, 5) == 0u8)
}

#[verifier::opaque]
spec fn bytes_p_4_119() -> bool {
    (((((bit_of(203u8, 6) == 1u8) && ((138u8 ^ 25u8) == 147u8)) && (((74u8 ^ 145u8) == 219u8) && ((241u8 ^ 198u8) == 55u8))) && ((((60u8 ^ 91u8) == 103u8) && ((161u8 ^ 243u8) == 82u8)) && (((68u8 ^ 18u8) == 86u8) && ((242u8 ^ 254u8) == 12u8)))) && (((((0u8 ^ 1u8) == 1u8) && ((27u8 ^ 242u8) == 233u8)) && (((91u8 ^ 202u8) == 145u8) && ((148u8 ^ 37u8) == 177u8))) && ((((81u8 ^ 31u8) == 78u8) && ((7u8 ^ 140u8) == 139u8)) && (((222u8 ^ 92u8) == 130u8) && (((0u8 ^ 225u8) == 225u8) && ((157u8 ^ 131u8) == 30u8))))))
}

#[verifier::opaque]
spec fn bytes_p_4_120() -> bool {
    (((((bit_of(203u8, 7) == 1u8) && ((147u8 ^ 181u8) == 38u8)) && (((219u8 ^ 34u8) == 249u8) && ((55u8 ^ 141u8) == 186u8))) && ((((103u8 ^ 183u8) == 208u8) && ((82u8 ^ 230u8) == 180u8)) && (((86u8 ^ 37u8) == 115u8) && ((12u8 ^ 252u8) == 240u8)))) && (((((1u8 ^ 3u8) == 2u8) && ((233u8 ^ 228u8) == 13u8)) && (((145u8 ^ 149u8) == 4u8) && ((177u8 ^ 75u8) == 250u8))) && ((((78u8 ^ 62u8) == 112u8) && ((139u8 ^ 24u8) == 147u8)) && (((130u8 ^ 185u8) == 59u8) && (((225u8 ^ 194u8) == 35u8) && ((30u8 ^ 7u8) == 25u8))))))
}

#[verifier::opaque]
spec fn bytes_p_4_121() -> bool {
    (((((bit_of(13u8, 0) == 1u8) && ((38u8 ^ 106u8) == 76u8)) && (((249u8 ^ 69u8) == 188u8) && ((186u8 ^ 26u8) == 160u8))) && ((((208u8 ^ 111u8) == 191u8) && ((180u8 ^ 205u8) == 121u8)) && (((115u8 ^ 75u8) == 56u8) && ((240u8 ^ 248u8) == 8u8)))) && (((((2u8 ^ 7u8) == 5u8) && ((13u8 ^ 200u8) == 197u8)) && (((4u8 ^ 43u8) == 47u8) && ((250u8 ^ 151u8) == 109u8))) && ((((112u8 ^ 124u8) == 12u8) && ((147u8 ^ 48u8) == 163u8)) && (((59u8 ^ 114u8) == 73u8) && (((35u8 ^ 133u8) == 166u8) && ((25u8 ^ 15u8) == 22u8))))))
}

#[verifier::opaque]
spec fn bytes_p_4_122() -> bool {
    (bit_of(13u8, 1) == 0u8)
}

#[verifier::opaque]
spec fn bytes_p_4_123() -> bool {
    (((((bit_of(13u8, 2) == 1u8) && ((76u8 ^ 168u8) == 228u8)) && (((188u8 ^ 21u8) == 169u8) && ((160u8 ^ 105u8) == 201u8))) && ((((191u8 ^ 188u8) == 3u8) && ((121u8 ^ 53u8) == 76u8)) && (((56u8 ^ 47u8) == 23u8) && ((8u8 ^ 225u8) == 233u8)))) && (((((5u8 ^ 31u8) == 26u8) && ((197u8 ^ 32u8) == 229u8)) && (((47u8 ^ 175u8) == 128u8) && ((109u8 ^ 92u8) == 49u8))) && ((((12u8 ^ 242u8) == 254u8) && ((163u8 ^ 193u8) == 98u8)) && (((73u8 ^ 200u8) == 129u8) && (((166u8 ^ 21u8) == 179u8) && ((22u8 ^ 62u8) == 40u8))))))
}

#[verifier::opaque]
spec fn bytes_p_4_124() -> bool {
    (((((bit_of(13u8, 3) == 1u8) && ((228u8 ^ 80u8) == 180u8)) && (((169u8 ^ 43u8) == 130u8) && ((201u8 ^ 210u8) == 27u8))) && ((((3u8 ^ 120u8) == 123u8) && ((76u8 ^ 107u8) == 39u8)) && (((23u8 ^ 94u8) == 73u8) && ((233u8 ^ 194u8) == 43u8)))) && (((((26u8 ^ 63u8) == 37u8) && ((229u8 ^ 64u8) == 165u8)) && (((128u8 ^ 94u8) == 222u8) && ((49u8 ^ 185u8) == 136u8))) && ((((254u8 ^ 228u8) == 26u8) && ((98u8 ^ 131u8) == 225u8)) && (((129u8 ^ 145u8) == 16u8) && (((179u8 ^ 43u8) == 152u8) && ((40u8 ^ 124u8) == 84u8))))))
}

#[verifier::opaque]
spec fn bytes_p_4_125() -> bool {
    (bit_of(13u8, 4) == 0u8)
}

#[verifier::opaque]
spec fn bytes_p_4_126() -> bool {
    (bit_of(13u8, 5) == 0u8)
}

#[verifier::opaque]
spec fn bytes_p_4_127() -> bool {
    (bit_of(13u8, 6) == 0u8)
}

#[verifier::opaque]
spec fn bytes_p_4_128() -> bool {
    (bit_of(13u8, 7) == 0u8)
}

#[verifier::opaque]
spec fn bytes_p_5_1() -> bool {
    (bit_of(180u8, 0) == 0u8)
}

#[verifier::opaque]
spec fn bytes_p_5_2() -> bool {
    (bit_of(180u8, 1) == 0u8)
}

#[verifier::opaque]
spec fn bytes_p_5_3() -> bool {
    (((((bit_of(180u8, 2) == 1u8) && ((0u8 ^ 52u8) == 52u8)) && (((0u8 ^ 56u8) == 56u8) && ((0u8 ^ 131u8) == 131u8))) && ((((0u8 ^ 85u8) == 85u8) && ((0u8 ^ 177u8) == 177u8)) && (((0u8 ^ 162u8) == 162u8) && ((0u8 ^ 255u8) == 255u8)))) && (((((0u8 ^ 132u8) == 132u8) && ((0u8 ^ 114u8) == 114u8)) && (((0u8 ^ 104u8) == 104u8) && ((0u8 ^ 94u8) == 94u8))) && ((((0u8 ^ 166u8) == 166u8) && ((0u8 ^ 86u8) == 86u8)) && (((0u8 ^ 21u8) == 21u8) && (((0u8 ^ 246u8) == 246u8) && ((0u8 ^ 20u8) == 20u8))))))
}

#[verifier::opaque]
spec fn bytes_p_5_4() -> bool {
    (bit_of(180u8, 3) == 0u8)
}

#[verifier::opaque]
spec fn bytes_p_5_5() -> bool {
    (((((bit_of(180u8, 4) == 1u8) && ((52u8 ^ 208u8) == 228u8)) && (((56u8 ^ 224u8) == 216u8) && ((131u8 ^ 12u8) == 143u8))) && ((((85u8 ^ 86u8) == 3u8) && ((177u8 ^ 197u8) == 116u8)) && (((162u8 ^ 138u8) == 40u8) && ((255u8 ^ 254u8) == 1u8)))) && (((((132u8 ^ 19u8) == 151u8) && ((114u8 ^ 202u8) == 184u8)) && (((104u8 ^ 161u8) == 201u8) && ((94u8 ^ 121u8) == 39u8))) && ((((166u8 ^ 153u8) == 63u8) && ((86u8 ^ 90u8) == 12u8)) && (((21u8 ^ 85u8) == 64u8) && (((246u8 ^ 216u8) == 46u8) && ((20u8 ^ 83u8) == 71u8))))))
}

#[verifier::opaque]
spec fn bytes_p_5_6() -> bool {
    (((((bit_of(180u8, 5) == 1u8) && ((228u8 ^ 160u8) == 68u8)) && (((216u8 ^ 193u8) == 25u8) && ((143u8 ^ 25u8) == 150u8))) && ((((3u8 ^ 172u8) == 175u8) && ((116u8 ^ 138u8) == 254u8)) && (((40u8 ^ 21u8) == 61u8) && ((1u8 ^ 253u8) == 252u8)))) && (((((151u8 ^ 39u8) == 176u8) && ((184u8 ^ 148u8) == 44u8)) && (((201u8 ^ 67u8) == 138u8) && ((39u8 ^ 243u8) == 212u8))) && ((((63u8 ^ 50u8) == 13u8) && ((12u8 ^ 181u8) == 185u8)) && (((64u8 ^ 170u8) == 234u8) && (((46u8 ^ 176u8) == 158u8) && ((71u8 ^ 167u8) == 224u8))))))
}

#[verifier::opaque]
spec fn bytes_p_5_7() -> bool {
    (bit_of(180u8, 6) == 0u8)
}

#[verifier::opaque]
spec fn bytes_p_5_8() -> bool {
    (((((bit_of(180u8, 7) == 1u8) && ((68u8 ^ 142u8) == 202u8)) && (((25u8 ^ 7u8) == 30u8) && ((150u8 ^ 103u8) == 241u8))) && ((((175u8 ^ 176u8) == 31u8) && ((254u8 ^ 42u8) == 212u8)) && (((61u8 ^ 86u8) == 107u8) && ((252u8 ^ 244u8) == 8u8)))) && (((((176u8 ^ 159u8) == 47u8) && ((44u8 ^ 80u8) == 124u8)) && (((138u8 ^ 14u8) == 132u8) && ((212u8 ^ 205u8) == 25u8))) && ((((13u8 ^ 203u8) == 198u8) && ((185u8 ^ 212u8) == 109u8)) && (((234u8 ^ 170u8) == 64u8) && (((158u8 ^ 194u8) == 92u8) && ((224u8 ^ 158u8) == 126u8))))))
}

#[verifier::opaque]
spec fn bytes_p_5_9() -> bool {
    (bit_of(130u8, 0) == 0u8)
}

#[verifier::opaque]
spec fn bytes_p_5_10() -> bool {
    (((((bit_of(130u8, 1) == 1u8) && ((202u8 ^ 54u8) == 252u8)) && (((30u8 ^ 31u8) == 1u8) && ((241u8 ^ 156u8) == 109u8))) && ((((31u8 ^ 193u8) == 222u8) && ((212u8 ^ 170u8) == 126u8)) && (((107u8 ^ 88u8) == 51u8) && ((8u8 ^ 209u8) == 217u8)))) && (((((47u8 ^ 127u8) == 80u8) && ((124u8 ^ 66u8) == 62u8)) && (((132u8 ^ 57u8) == 189u8) && ((25u8 ^ 52u8) == 45u8))) && ((((198u8 ^ 47u8) == 233u8) && ((109u8 ^ 83u8) == 62u8)) && (((64u8 ^ 171u8) == 235u8) && (((92u8 ^ 10u8) == 86u8) && ((126u8 ^ 123u8) == 5u8))))))
}

#[verifier::opaque]
spec fn bytes_p_5_11() -> bool {
    (bit_of(130u8, 2) == 0u8)
}

#[verifier::opaque]
spec fn bytes_p_5_12() -> bool {
    (bit_of(130u8, 3) == 0u8)
}

#[verifier::opaque]
spec fn bytes_p_5_13() -> bool {
    (bit_of(130u8, 4) == 0u8)
}

#[verifier::opaque]
spec fn bytes_p_5_14() -> bool {
    (bit_of(130u8, 5) == 0u8)
}

#[verifier::opaque]
spec fn bytes_p_5_15() -> bool {
    (bit_of(130u8, 6) == 0u8)
}

#[verifier::opaque]
spec fn bytes_p_5_16() -> bool {
    (((((bit_of(130u8, 7) == 1u8) && ((252u8 ^ 218u8) == 38u8)) && (((1u8 ^ 194u8) == 195u8) && ((109u8 ^ 7u8) == 106u8))) && ((((222u8 ^ 103u8) == 185u8) && ((126u8 ^ 176u8) == 206u8)) && (((51u8 ^ 42u8) == 25u8) && ((217u8 ^ 86u8) == 143u8)))) && (((((80u8 ^ 244u8) == 164u8) && ((62u8 ^ 159u8) == 161u8)) && (((189u8 ^ 80u8) == 237u8) && ((45u8 ^ 14u8) == 35u8))) && ((((233u8 ^ 205u8) == 36u8) && ((62u8 ^ 203u8) == 245u8)) && (((235u8 ^ 212u8) == 63u8) && (((86u8 ^ 170u8) == 252u8) && ((5u8 ^ 194u8) == 199u8))))))
}

#[verifier::opaque]
spec fn bytes_p_5_17() -> bool {
    (((((bit_of(27u8, 0) == 1u8) && ((38u8 ^ 51u8) == 21u8)) && (((195u8 ^ 133u8) == 70u8) && ((106u8 ^ 15u8) == 101u8))) && ((((185u8 ^ 206u8) == 119u8) && ((206u8 ^ 96u8) == 174u8)) && (((25u8 ^ 85u8) == 76u8) && ((143u8 ^ 172u8) == 35u8)))) && (((((164u8 ^ 232u8) == 76u8) && ((161u8 ^ 63u8) == 158u8)) && (((237u8 ^ 161u8) == 76u8) && ((35u8 ^ 28u8) == 63u8))) && ((((36u8 ^ 154u8) == 190u8) && ((245u8 ^ 151u8) == 98u8)) && (((63u8 ^ 169u8) == 150u8) && (((252u8 ^ 85u8) == 169u8) && ((199u8 ^ 133u8) == 66u8))))))
}

#[verifier::opaque]
spec fn bytes_p_5_18() -> bool {
    (((((bit_of(27u8, 1) == 1u8) && ((21u8 ^ 225u8) == 244u8)) && (((70u8 ^ 10u8) == 76u8) && ((101u8 ^ 31u8) == 122u8))) && ((((119u8 ^ 156u8) == 235u8) && ((174u8 ^ 193u8) == 111u8)) && (((76u8 ^ 170u8) == 230u8) && ((35u8 ^ 88u8) == 123u8)))) && (((((76u8 ^ 209u8) == 157u8) && ((158u8 ^ 127u8) == 225u8)) && (((76u8 ^ 66u8) == 14u8) && ((63u8 ^ 57u8) == 6u8))) && ((((190u8 ^ 52u8) == 138u8) && ((98u8 ^ 47u8) == 77u8)) && (((150u8 ^ 83u8) == 197u8) && (((169u8 ^ 171u8) == 2u8) && ((66u8 ^ 10u8) == 72u8))))))
}

#[verifier::opaque]
spec fn bytes_p_5_19() -> bool {
    (bit_of(27u8, 2) == 0u8)
}

#[verifier::opaque]
spec fn bytes_p_5_20() -> bool {
    (((((bit_of(27u8, 3) == 1u8) && ((244u8 ^ 132u8) == 112u8)) && (((76u8 ^ 43u8) == 103u8) && ((122u8 ^ 124u8) == 6u8))) && ((((235u8 ^ 112u8) == 155u8) && ((111u8 ^ 6u8) == 105u8)) && (((230u8 ^ 171u8) == 77u8) && ((123u8 ^ 98u8) == 25u8)))) && (((((157u8 ^ 69u8) == 216u8) && ((225u8 ^ 255u8) == 30u8)) && (((14u8 ^ 9u8) == 7u8) && ((6u8 ^ 229u8) == 227u8))) && ((((138u8 ^ 208u8) == 90u8) && ((77u8 ^ 188u8) == 241u8)) && (((197u8 ^ 76u8) == 137u8) && (((2u8 ^ 173u8) == 175u8) && ((72u8 ^ 42u8) == 98u8))))))
}

#[verifier::opaque]
spec fn bytes_p_5_21() -> bool {
    (((((bit_of(27u8, 4) == 1u8) && ((112u8 ^ 8u8) == 120u8)) && (((103u8 ^ 87u8) == 48u8) && ((6u8 ^ 248u8) == 254u8))) && ((((155u8 ^ 224u8) == 123u8) && ((105u8 ^ 12u8) == 101u8)) && (((77u8 ^ 86u8) == 27u8) && ((25u8 ^ 197u8) == 220u8)))) && (((((216u8 ^ 138u8) == 82u8) && ((30u8 ^ 254u8) == 224u8)) && (((7u8 ^ 19u8) == 20u8) && ((227u8 ^ 202u8) == 41u8))) && ((((90u8 ^ 161u8) == 251u8) && ((241u8 ^ 121u8) == 136u8)) && (((137u8 ^ 153u8) == 16u8) && (((175u8 ^ 90u8) == 245u8) && ((98u8 ^ 85u8) == 55u8))))))
}

#[verifier::opaque]
spec fn bytes_p_5_22() -> bool {
    (bit_of(27u8, 5) == 0u8)
}

#[verifier::opaque]
spec fn bytes_p_5_23() -> bool {
    (bit_of(27u8, 6) == 0u8)
}

#[verifier::opaque]
spec fn bytes_p_5_24() -> bool {
    (bit_of(27u8, 7) == 0u8)
}

#[verifier::opaque]
spec fn bytes_p_5_25() -> bool {
    (((((bit_of(123u8, 0) == 1u8) && ((120u8 ^ 27u8) == 99u8)) && (((48u8 ^ 114u8) == 66u8) && ((254u8 ^ 133u8) == 123u8))) && ((((123u8 ^ 15u8) == 116u8) && ((101u8 ^ 206u8) == 171u8)) && (((27u8 ^ 96u8) == 123u8) && ((220u8 ^ 85u8) == 137u8)))) && (((((82u8 ^ 172u8) == 254u8) && ((224u8 ^ 232u8) == 8u8)) && (((20u8 ^ 63u8) == 43u8) && ((41u8 ^ 161u8) == 136u8))) && ((((251u8 ^ 28u8) == 231u8) && ((136u8 ^ 154u8) == 18u8)) && (((16u8 ^ 151u8) == 135u8) && (((245u8 ^ 169u8) == 92u8) && ((55u8 ^ 85u8) == 98u8))))))
}

#[verifier::opaque]
spec fn bytes_p_5_26() -> bool {
    (((((bit_of(123u8, 1) == 1u8) && ((99u8 ^ 54u8) == 85u8)) && (((66u8 ^ 228u8) == 166u8) && ((123u8 ^ 10u8) == 113u8))) && ((((116u8 ^ 31u8) == 107u8) && ((171u8 ^ 156u8) == 55u8)) && (((123u8 ^ 193u8) == 186u8) && ((137u8 ^ 170u8) == 35u8)))) && (((((254u8 ^ 88u8) == 166u8) && ((8u8 ^ 209u8) == 217u8)) && (((43u8 ^ 127u8) == 84u8) && ((136u8 ^ 66u8) == 202u8))) && ((((231u8 ^ 57u8) == 222u8) && ((18u8 ^ 52u8) == 38u8)) && (((135u8 ^ 47u8) == 168u8) && (((92u8 ^ 83u8) == 15u8) && ((98u8 ^ 171u8) == 201u8))))))
}

#[verifier::opaque]
spec fn bytes_p_5_27() -> bool {
    (bit_of(123u8, 2) == 0u8)
}

#[verifier::opaque]
spec fn bytes_p_5_28() -> bool {
    (((((bit_of(123u8, 3) == 1u8) && ((85u8 ^ 214u8) == 131u8)) && (((166u8 ^ 145u8) == 55u8) && ((113u8 ^ 43u8) == 90u8))) && ((((107u8 ^ 124u8) == 23u8) && ((55u8 ^ 112u8) == 71u8)) && (((186u8 ^ 6u8) == 188u8) && ((35u8 ^ 171u8) == 136u8)))) && (((((166u8 ^ 98u8) == 196u8) && ((217u8 ^ 69u8) == 156u8)) && (((84u8 ^ 255u8) == 171u8) && ((202u8 ^ 9u8) == 195u8))) && ((((222u8 ^ 229u8) == 59u8) && ((38u8 ^ 208u8) == 246u8)) && (((168u8 ^ 188u8) == 20u8) && (((15u8 ^ 76u8) == 67u8) && ((201u8 ^ 173u8) == 100u8))))))
}

#[verifier::opaque]
spec fn bytes_p_5_29() -> bool {
    (((((bit_of(123u8, 4) == 1u8) && ((131u8 ^ 43u8) == 168u8)) && (((55u8 ^ 35u8) == 20u8) && ((90u8 ^ 87u8) == 13u8))) && ((((23u8 ^ 248u8) == 239u8) && ((71u8 ^ 224u8) == 167u8)) && (((188u8 ^ 12u8) == 176u8) && ((136u8 ^ 86u8) == 222u8)))) && (((((196u8 ^ 197u8) == 1u8) && ((156u8 ^ 138u8) == 22u8)) && (((171u8 ^ 254u8) == 85u8) && ((195u8 ^ 19u8) == 208u8))) && ((((59u8 ^ 202u8) == 241u8) && ((246u8 ^ 161u8) == 87u8)) && (((20u8 ^ 121u8) == 109u8) && (((67u8 ^ 153u8) == 218u8) && ((100u8 ^ 90u8) == 62u8))))))
}

#[verifier::opaque]
spec fn bytes_p_5_30() -> bool {
    (((((bit_of(123u8, 5) == 1u8) && ((168u8 ^ 86u8) == 254u8)) && (((20u8 ^ 70u8) == 82u8) && ((13u8 ^ 174u8) == 163u8))) && ((((239u8 ^ 240u8) == 31u8) && ((167u8 ^ 193u8) == 102u8)) && (((176u8 ^ 25u8) == 169u8) && ((222u8 ^ 172u8) == 114u8)))) && (((((1u8 ^ 138u8) == 139u8) && ((22u8 ^ 21u8) == 3u8)) && (((85u8 ^ 253u8) == 168u8) && ((208u8 ^ 39u8) == 247u8))) && ((((241u8 ^ 148u8) == 101u8) && ((87u8 ^ 67u8) == 20u8)) && (((109u8 ^ 243u8) == 158u8) && (((218u8 ^ 50u8) == 232u8) && ((62u8 ^ 181u8) == 139u8))))))
}

#[verifier::opaque]
spec fn bytes_p_5_31() -> bool {
    (((((bit_of(123u8, 6) == 1u8) && ((254u8 ^ 43u8) == 213u8)) && (((82u8 ^ 140u8) == 222u8) && ((163u8 ^ 92u8) == 255u8))) && ((((31u8 ^ 225u8) == 254u8) && ((102u8 ^ 131u8) == 229u8)) && (((169u8 ^ 51u8) == 154u8) && ((114u8 ^ 88u8) == 42u8)))) && (((((139u8 ^ 21u8) == 158u8) && ((3u8 ^ 43u8) == 40u8)) && (((168u8 ^ 250u8) == 82u8) && ((247u8 ^ 79u8) == 184u8))) && ((((101u8 ^ 40u8) == 77u8) && ((20u8 ^ 135u8) == 147u8)) && (((158u8 ^ 230u8) == 120u8) && (((232u8 ^ 101u8) == 141u8) && ((139u8 ^ 106u8) == 225u8))))))
}

#[verifier::opaque]
spec fn bytes_p_5_32() -> bool {
    (bit_of(123u8, 7) == 0u8)
}

#[verifier::opaque]
spec fn bytes_p_5_33() -> bool {
    (((((bit_of(39u8, 0) == 1u8) && ((213u8 ^ 43u8) == 254u8)) && (((222u8 ^ 48u8) == 238u8) && ((255u8 ^ 114u8) == 141u8))) && ((((254u8 ^ 133u8) == 123u8) && ((229u8 ^ 15u8) == 234u8)) && (((154u8 ^ 206u8) == 84u8) && ((42u8 ^ 96u8) == 74u8)))) && (((((158u8 ^ 85u8) == 203u8) && ((40u8 ^ 172u8) == 132u8)) && (((82u8 ^ 232u8) == 186u8) && ((184u8 ^ 63u8) == 135u8))) && ((((77u8 ^ 161u8) == 236u8) && ((147u8 ^ 28u8) == 143u8)) && (((120u8 ^ 154u8) == 226u8) && (((141u8 ^ 151u8) == 26u8) && ((225u8 ^ 169u8) == 72u8))))))
}

#[verifier::opaque]
spec fn bytes_p_5_34() -> bool {
    (((((bit_of(39u8, 1) == 1u8) && ((254u8 ^ 209u8) == 47u8)) && (((238u8 ^ 96u8) == 142u8) && ((141u8 ^ 228u8) == 105u8))) && ((((123u8 ^ 10u8) == 113u8) && ((234u8 ^ 31u8) == 245u8)) && (((84u8 ^ 156u8) == 200u8) && ((74u8 ^ 193u8) == 139u8)))) && (((((203u8 ^ 170u8) == 97u8) && ((132u8 ^ 88u8) == 220u8)) && (((186u8 ^ 209u8) == 107u8) && ((135u8 ^ 127u8) == 248u8))) && ((((236u8 ^ 66u8) == 174u8) && ((143u8 ^ 57u8) == 182u8)) && (((226u8 ^ 52u8) == 214u8) && (((26u8 ^ 47u8) == 53u8) && ((72u8 ^ 83u8) == 27u8))))))
}

#[verifier::opaque]
spec fn bytes_p_5_35() -> bool {
    (((((bit_of(39u8, 2) == 1u8) && ((47u8 ^ 162u8) == 141u8)) && (((142u8 ^ 193u8) == 79u8) && ((105u8 ^ 200u8) == 161u8))) && ((((113u8 ^ 21u8) == 100u8) && ((245u8 ^ 62u8) == 203u8)) && (((200u8 ^ 56u8) == 240u8) && ((139u8 ^ 131u8) == 8u8)))) && (((((97u8 ^ 85u8) == 52u8) && ((220u8 ^ 177u8) == 109u8)) && (((107u8 ^ 162u8) == 201u8) && ((248u8 ^ 255u8) == 7u8))) && ((((174u8 ^ 132u8) == 42u8) && ((182u8 ^ 114u8) == 196u8)) && (((214u8 ^ 104u8) == 190u8) && (((53u8 ^ 94u8) == 107u8) && ((27u8 ^ 166u8) == 189u8))))))
}

#[verifier::opaque]
spec fn bytes_p_5_36() -> bool {
    (bit_of(39u8, 3) == 0u8)
}

#[verifier::opaque]
spec fn bytes_p_5_37() -> bool {
    (bit_of(39u8, 4) == 0u8)
}

#[verifier::opaque]
spec fn bytes_p_5_38() -> bool {
    (((((bit_of(39u8, 5) == 1u8) && ((141u8 ^ 139u8) == 6u8)) && (((79u8 ^ 15u8) == 64u8) && ((161u8 ^ 70u8) == 231u8))) && ((((100u8 ^ 174u8) == 202u8) && ((203u8 ^ 240u8) == 59u8)) && (((240u8 ^ 193u8) == 49u8) && ((8u8 ^ 25u8) == 17u8)))) && (((((52u8 ^ 172u8) == 152u8) && ((109u8 ^ 138u8) == 231u8)) && (((201u8 ^ 21u8) == 220u8) && ((7u8 ^ 253u8) == 250u8))) && ((((42u8 ^ 39u8) == 13u8) && ((196u8 ^ 148u8) == 80u8)) && (((190u8 ^ 67u8) == 253u8) && (((107u8 ^ 243u8) == 152u8) && ((189u8 ^ 50u8) == 143u8))))))
}

#[verifier::opaque]
spec fn bytes_p_5_39() -> bool {
    (bit_of(39u8, 6) == 0u8)
}

#[verifier::opaque]
spec fn bytes_p_5_40() -> bool {
    (bit_of(39u8, 7) == 0u8)
}

#[verifier::opaque]
spec fn bytes_p_5_41() -> bool {
    (((((bit_of(73u8, 0) == 1u8) && ((6u8 ^ 223u8) == 217u8)) && (((64u8 ^ 124u8) == 60u8) && ((231u8 ^ 48u8) == 215u8))) && ((((202u8 ^ 114u8) == 184u8) && ((59u8 ^ 133u8) == 190u8)) && (((49u8 ^ 15u8) == 62u8) && ((17u8 ^ 206u8) == 223u8)))) && (((((152u8 ^ 96u8) == 248u8) && ((231u8 ^ 85u8) == 178u8)) && (((220u8 ^ 172u8) == 112u8) && ((250u8 ^ 232u8) == 18u8))) && ((((13u8 ^ 63u8) == 50u8) && ((80u8 ^ 161u8) == 241u8)) && (((253u8 ^ 28u8) == 225u8) && (((152u8 ^ 154u8) == 2u8) && ((143u8 ^ 151u8) == 24u8))))))
}

#[verifier::opaque]
spec fn bytes_p_5_42() -> bool {
    (bit_of(73u8, 1) == 0u8)
}

#[verifier::opaque]
spec fn bytes_p_5_43() -> bool {
    (bit_of(73u8, 2) == 0u8)
}

#[verifier::opaque]
spec fn bytes_p_5_44() -> bool {
    (((((bit_of(73u8, 3) == 1u8) && ((217u8 ^ 228u8) == 61u8)) && (((60u8 ^ 228u8) == 216u8) && ((215u8 ^ 131u8) == 84u8))) && ((((184u8 ^ 145u8) == 41u8) && ((190u8 ^ 43u8) == 149u8)) && (((62u8 ^ 124u8) == 66u8) && ((223u8 ^ 112u8) == 175u8)))) && (((((248u8 ^ 6u8) == 254u8) && ((178u8 ^ 171u8) == 25u8)) && (((112u8 ^ 98u8) == 18u8) && ((18u8 ^ 69u8) == 87u8))) && ((((50u8 ^ 255u8) == 205u8) && ((241u8 ^ 9u8) == 248u8)) && (((225u8 ^ 229u8) == 4u8) && (((2u8 ^ 208u8) == 210u8) && ((24u8 ^ 188u8) == 164u8))))))
}

#[verifier::opaque]
spec fn bytes_p_5_45() -> bool {
    (bit_of(73u8, 4) == 0u8)
}

#[verifier::opaque]
spec fn bytes_p_5_46() -> bool {
    (bit_of(73u8, 5) == 0u8)
}

#[verifier::opaque]
spec fn bytes_p_5_47() -> bool {
    (((((bit_of(73u8, 6) == 1u8) && ((61u8 ^ 187u8) == 134u8)) && (((216u8 ^ 37u8) == 253u8) && ((84u8 ^ 31u8) == 75u8))) && ((((41u8 ^ 140u8) == 165u8) && ((149u8 ^ 92u8) == 201u8)) && (((66u8 ^ 225u8) == 163u8) && ((175u8 ^ 131u8) == 44u8)))) && (((((254u8 ^ 51u8) == 205u8) && ((25u8 ^ 88u8) == 65u8)) && (((18u8 ^ 21u8) == 7u8) && ((87u8 ^ 43u8) == 124u8))) && ((((205u8 ^ 250u8) == 55u8) && ((248u8 ^ 79u8) == 183u8)) && (((4u8 ^ 40u8) == 44u8) && (((210u8 ^ 135u8) == 85u8) && ((164u8 ^ 230u8) == 66u8))))))
}

#[verifier::opaque]
spec fn bytes_p_5_48() -> bool {
    (bit_of(73u8, 7) == 0u8)
}

#[verifier::opaque]
spec fn bytes_p_5_49() -> bool {
    (((((bit_of(43u8, 0) == 1u8) && ((134u8 ^ 101u8) == 227u8)) && (((253u8 ^ 151u8) == 106u8) && ((75u8 ^ 124u8) == 55u8))) && ((((165u8 ^ 48u8) == 149u8) && ((201u8 ^ 114u8) == 187u8)) && (((163u8 ^ 133u8) == 38u8) && ((44u8 ^ 15u8) == 35u8)))) && (((((205u8 ^ 206u8) == 3u8) && ((65u8 ^ 96u8) == 33u8)) && (((7u8 ^ 85u8) == 82u8) && ((124u8 ^ 172u8) == 208u8))) && ((((55u8 ^ 232u8) == 223u8) && ((183u8 ^ 63u8) == 136u8)) && (((44u8 ^ 161u8) == 141u8) && (((85u8 ^ 28u8) == 73u8) && ((66u8 ^ 154u8) == 216u8))))))
}

#[verifier::opaque]
spec fn bytes_p_5_50() -> bool {
    (((((bit_of(43u8, 1) == 1u8) && ((227u8 ^ 77u8) == 174u8)) && (((106u8 ^ 46u8) == 68u8) && ((55u8 ^ 249u8) == 206u8))) && ((((149u8 ^ 96u8) == 245u8) && ((187u8 ^ 228u8) == 95u8)) && (((38u8 ^ 10u8) == 44u8) && ((35u8 ^ 31u8) == 60u8)))) && (((((3u8 ^ 156u8) == 159u8) && ((33u8 ^ 193u8) == 224u8)) && (((82u8 ^ 170u8) == 248u8) && ((208u8 ^ 88u8) == 136u8))) && ((((223u8 ^ 209u8) == 14u8) && ((136u8 ^ 127u8) == 247u8)) && (((141u8 ^ 66u8) == 207u8) && (((73u8 ^ 57u8) == 112u8) && ((216u8 ^ 52u8) == 236u8))))))
}

#[verifier::opaque]
spec fn bytes_p_5_51() -> bool {
    (bit_of(43u8, 2) == 0u8)
}

#[verifier::opaque]
spec fn bytes_p_5_52() -> bool {
    (((((bit_of(43u8, 3) == 1u8) && ((174u8 ^ 52u8) == 154u8)) && (((68u8 ^ 185u8) == 253u8) && ((206u8 ^ 228u8) == 42u8))) && ((((245u8 ^ 131u8) == 118u8) && ((95u8 ^ 145u8) == 206u8)) && (((44u8 ^ 43u8) == 7u8) && ((60u8 ^ 124u8) == 64u8)))) && (((((159u8 ^ 112u8) == 239u8) && ((224u8 ^ 6u8) == 230u8)) && (((248u8 ^ 171u8) == 83u8) && ((136u8 ^ 98u8) == 234u8))) && ((((14u8 ^ 69u8) == 75u8) && ((247u8 ^ 255u8) == 8u8)) && (((207u8 ^ 9u8) == 198u8) && (((112u8 ^ 229u8) == 149u8) && ((236u8 ^ 208u8) == 60u8))))))
}

#[verifier::opaque]
spec fn bytes_p_5_53() -> bool {
    (bit_of(43u8, 4) == 0u8)
}

#[verifier::opaque]
spec fn bytes_p_5_54() -> bool {
    (((((bit_of(43u8, 5) == 1u8) && ((154u8 ^ 89u8) == 195u8)) && (((253u8 ^ 229u8) == 24u8) && ((42u8 ^ 146u8) == 184u8))) && ((((118u8 ^ 15u8) == 121u8) && ((206u8 ^ 70u8) == 136u8)) && (((7u8 ^ 174u8) == 169u8) && ((64u8 ^ 240u8) == 176u8)))) && (((((239u8 ^ 193u8) == 46u8) && ((230u8 ^ 25u8) == 255u8)) && (((83u8 ^ 172u8) == 255u8) && ((234u8 ^ 138u8) == 96u8))) && ((((75u8 ^ 21u8) == 94u8) && ((8u8 ^ 253u8) == 245u8)) && (((198u8 ^ 39u8) == 225u8) && (((149u8 ^ 148u8) == 1u8) && ((60u8 ^ 67u8) == 127u8))))))
}

#[verifier::opaque]
spec fn bytes_p_5_55() -> bool {
    (bit_of(43u8, 6) == 0u8)
}

#[verifier::opaque]
spec fn bytes_p_5_56() -> bool {
    (bit_of(43u8, 7) == 0u8)
}

#[verifier::opaque]
spec fn bytes_p_5_57() -> bool {
    (((((bit_of(37u8, 0) == 1u8) && ((195u8 ^ 198u8) == 5u8)) && (((24u8 ^ 43u8) == 51u8) && ((184u8 ^ 151u8) == 47u8))) && ((((121u8 ^ 124u8) == 5u8) && ((136u8 ^ 48u8) == 184u8)) && (((169u8 ^ 114u8) == 219u8) && ((176u8 ^ 133u8) == 53u8)))) && (((((46u8 ^ 15u8) == 33u8) && ((255u8 ^ 206u8) == 49u8)) && (((255u8 ^ 96u8) == 159u8) && ((96u8 ^ 85u8) == 53u8))) && ((((94u8 ^ 172u8) == 242u8) && ((245u8 ^ 232u8) == 29u8)) && (((225u8 ^ 63u8) == 222u8) && (((1u8 ^ 161u8) == 160u8) && ((127u8 ^ 28u8) == 99u8))))))
}

#[verifier::opaque]
spec fn bytes_p_5_58() -> bool {
    (bit_of(37u8, 1) == 0u8)
}

#[verifier::opaque]
spec fn bytes_p_5_59() -> bool {
    (((((bit_of(37u8, 2) == 1u8) && ((5u8 ^ 24u8) == 29u8)) && (((51u8 ^ 175u8) == 156u8) && ((47u8 ^ 92u8) == 115u8))) && ((((5u8 ^ 242u8) == 247u8) && ((184u8 ^ 193u8) == 121u8)) && (((219u8 ^ 200u8) == 19u8) && ((53u8 ^ 21u8) == 32u8)))) && (((((33u8 ^ 62u8) == 31u8) && ((49u8 ^ 56u8) == 9u8)) && (((159u8 ^ 131u8) == 28u8) && ((53u8 ^ 85u8) == 96u8))) && ((((242u8 ^ 177u8) == 67u8) && ((29u8 ^ 162u8) == 191u8)) && (((222u8 ^ 255u8) == 33u8) && (((160u8 ^ 132u8) == 36u8) && ((99u8 ^ 114u8) == 17u8))))))
}

#[verifier::opaque]
spec fn bytes_p_5_60() -> bool {
    (bit_of(37u8, 3) == 0u8)
}

#[verifier::opaque]
spec fn bytes_p_5_61() -> bool {
    (bit_of(37u8, 4) == 0u8)
}

#[verifier::opaque]
spec fn bytes_p_5_62() -> bool {
    (((((bit_of(37u8, 5) == 1u8) && ((29u8 ^ 73u8) == 84u8)) && (((156u8 ^ 121u8) == 229u8) && ((115u8 ^ 229u8) == 150u8))) && ((((247u8 ^ 146u8) == 101u8) && ((121u8 ^ 15u8) == 118u8)) && (((19u8 ^ 70u8) == 85u8) && ((32u8 ^ 174u8) == 142u8)))) && (((((31u8 ^ 240u8) == 239u8) && ((9u8 ^ 193u8) == 200u8)) && (((28u8 ^ 25u8) == 5u8) && ((96u8 ^ 172u8) == 204u8))) && ((((67u8 ^ 138u8) == 201u8) && ((191u8 ^ 21u8) == 170u8)) && (((33u8 ^ 253u8) == 220u8) && (((36u8 ^ 39u8) == 3u8) && ((17u8 ^ 148u8) == 133u8))))))
}

#[verifier::opaque]
spec fn bytes_p_5_63() -> bool {
    (bit_of(37u8, 6) == 0u8)
}

#[verifier::opaque]
spec fn bytes_p_5_64() -> bool {
    (bit_of(37u8, 7) == 0u8)
}

#[verifier::opaque]
spec fn bytes_p_5_65() -> bool {
    (((((bit_of(165u8, 0) == 1u8) && ((84u8 ^ 84u8) == 0u8)) && (((229u8 ^ 200u8) == 45u8) && ((150u8 ^ 43u8) == 189u8))) && ((((101u8 ^ 151u8) == 242u8) && ((118u8 ^ 124u8) == 10u8)) && (((85u8 ^ 48u8) == 101u8) && ((142u8 ^ 114u8) == 252u8)))) && (((((239u8 ^ 133u8) == 106u8) && ((200u8 ^ 15u8) == 199u8)) && (((5u8 ^ 206u8) == 203u8) && ((204u8 ^ 96u8) == 172u8))) && ((((201u8 ^ 85u8) == 156u8) && ((170u8 ^ 172u8) == 6u8)) && (((220u8 ^ 232u8) == 52u8) && (((3u8 ^ 63u8) == 60u8) && ((133u8 ^ 161u8) == 36u8))))))
}

#[verifier::opaque]
spec fn bytes_p_5_66() -> bool {
    (bit_of(165u8, 1) == 0u8)
}

#[verifier::opaque]
spec fn bytes_p_5_67() -> bool {
    (((((bit_of(165u8, 2) == 1u8) && ((0u8 ^ 94u8) == 94u8)) && (((45u8 ^ 32u8) == 13u8) && ((189u8 ^ 175u8) == 18u8))) && ((((242u8 ^ 92u8) == 174u8) && ((10u8 ^ 242u8) == 248u8)) && (((101u8 ^ 193u8) == 164u8) && ((252u8 ^ 200u8) == 52u8)))) && (((((106u8 ^ 21u8) == 127u8) && ((199u8 ^ 62u8) == 249u8)) && (((203u8 ^ 56u8) == 243u8) && ((172u8 ^ 131u8) == 47u8))) && ((((156u8 ^ 85u8) == 201u8) && ((6u8 ^ 177u8) == 183u8)) && (((52u8 ^ 162u8) == 150u8) && (((60u8 ^ 255u8) == 195u8) && ((36u8 ^ 132u8) == 160u8))))))
}

#[verifier::opaque]
spec fn bytes_p_5_68() -> bool {
    (bit_of(165u8, 3) == 0u8)
}

#[verifier::opaque]
spec fn bytes_p_5_69() -> bool {
    (bit_of(165u8, 4) == 0u8)
}

#[verifier::opaque]
spec fn bytes_p_5_70() -> bool {
    (((((bit_of(165u8, 5) == 1u8) && ((94u8 ^ 236u8) == 178u8)) && (((13u8 ^ 0u8) == 13u8) && ((18u8 ^ 121u8) == 107u8))) && ((((174u8 ^ 229u8) == 75u8) && ((248u8 ^ 146u8) == 106u8)) && (((164u8 ^ 15u8) == 171u8) && ((52u8 ^ 70u8) == 114u8)))) && (((((127u8 ^ 174u8) == 209u8) && ((249u8 ^ 240u8) == 9u8)) && (((243u8 ^ 193u8) == 50u8) && ((47u8 ^ 25u8) == 54u8))) && ((((201u8 ^ 172u8) == 101u8) && ((183u8 ^ 138u8) == 61u8)) && (((150u8 ^ 21u8) == 131u8) && (((195u8 ^ 253u8) == 62u8) && ((160u8 ^ 39u8) == 135u8))))))
}

#[verifier::opaque]
spec fn bytes_p_5_71() -> bool {
    (bit_of(165u8, 6) == 0u8)
}

#[verifier::opaque]
spec fn bytes_p_5_72() -> bool {
    (((((bit_of(165u8, 7) == 1u8) && ((178u8 ^ 176u8) == 2u8)) && (((13u8 ^ 3u8) == 14u8) && ((107u8 ^ 228u8) == 143u8))) && ((((75u8 ^ 149u8) == 222u8) && ((106u8 ^ 75u8) == 33u8)) && (((171u8 ^ 62u8) == 149u8) && ((114u8 ^ 24u8) == 106u8)))) && (((((209u8 ^ 185u8) == 104u8) && ((9u8 ^ 194u8) == 203u8)) && (((50u8 ^ 7u8) == 53u8) && ((54u8 ^ 103u8) == 81u8))) && ((((101u8 ^ 176u8) == 213u8) && ((61u8 ^ 42u8) == 23u8)) && (((131u8 ^ 86u8) == 213u8) && (((62u8 ^ 244u8) == 202u8) && ((135u8 ^ 159u8) == 24u8))))))
}

#[verifier::opaque]
spec fn bytes_p_5_73() -> bool {
    (bit_of(222u8, 0) == 0u8)
}

#[verifier::opaque]
spec fn bytes_p_5_74() -> bool {
    (((((bit_of(222u8, 1) == 1u8) && ((2u8 ^ 206u8) == 204u8)) && (((14u8 ^ 15u8) == 1u8) && ((143u8 ^ 144u8) == 31u8))) && ((((222u8 ^ 87u8) == 137u8) && ((33u8 ^ 46u8) == 15u8)) && (((149u8 ^ 249u8) == 108u8) && ((106u8 ^ 96u8) == 10u8)))) && (((((104u8 ^ 228u8) == 140u8) && ((203u8 ^ 10u8) == 193u8)) && (((53u8 ^ 31u8) == 42u8) && ((81u8 ^ 156u8) == 205u8))) && ((((213u8 ^ 193u8) == 20u8) && ((23u8 ^ 170u8) == 189u8)) && (((213u8 ^ 88u8) == 141u8) && (((202u8 ^ 209u8) == 27u8) && ((24u8 ^ 127u8) == 103u8))))))
}

#[verifier::opaque]
spec fn bytes_p_5_75() -> bool {
    (((((bit_of(222u8, 2) == 1u8) && ((204u8 ^ 156u8) == 80u8)) && (((1u8 ^ 31u8) == 30u8) && ((31u8 ^ 32u8) == 63u8))) && ((((137u8 ^ 175u8) == 38u8) && ((15u8 ^ 92u8) == 83u8)) && (((108u8 ^ 242u8) == 158u8) && ((10u8 ^ 193u8) == 203u8)))) && (((((140u8 ^ 200u8) == 68u8) && ((193u8 ^ 21u8) == 212u8)) && (((42u8 ^ 62u8) == 20u8) && ((205u8 ^ 56u8) == 245u8))) && ((((20u8 ^ 131u8) == 151u8) && ((189u8 ^ 85u8) == 232u8)) && (((141u8 ^ 177u8) == 60u8) && (((27u8 ^ 162u8) == 185u8) && ((103u8 ^ 255u8) == 152u8))))))
}

#[verifier::opaque]
spec fn bytes_p_5_76() -> bool {
    (((((bit_of(222u8, 3) == 1u8) && ((80u8 ^ 191u8) == 239u8)) && (((30u8 ^ 63u8) == 33u8) && ((63u8 ^ 64u8) == 127u8))) && ((((38u8 ^ 94u8) == 120u8) && ((83u8 ^ 185u8) == 234u8)) && (((158u8 ^ 228u8) == 122u8) && ((203u8 ^ 131u8) == 72u8)))) && (((((68u8 ^ 145u8) == 213u8) && ((212u8 ^ 43u8) == 255u8)) && (((20u8 ^ 124u8) == 104u8) && ((245u8 ^ 112u8) == 133u8))) && ((((151u8 ^ 6u8) == 145u8) && ((232u8 ^ 171u8) == 67u8)) && (((60u8 ^ 98u8) == 94u8) && (((185u8 ^ 69u8) == 252u8) && ((152u8 ^ 255u8) == 103u8))))))
}

#[verifier::opaque]
spec fn bytes_p_5_77() -> bool {
    (((((bit_of(222u8, 4) == 1u8) && ((239u8 ^ 249u8) == 22u8)) && (((33u8 ^ 127u8) == 94u8) && ((127u8 ^ 128u8) == 255u8))) && ((((120u8 ^ 188u8) == 196u8) && ((234u8 ^ 114u8) == 152u8)) && (((122u8 ^ 201u8) == 179u8) && ((72u8 ^ 7u8) == 79u8)))) && (((((213u8 ^ 35u8) == 246u8) && ((255u8 ^ 87u8) == 168u8)) && (((104u8 ^ 248u8) == 144u8) && ((133u8 ^ 224u8) == 101u8))) && ((((145u8 ^ 12u8) == 157u8) && ((67u8 ^ 86u8) == 21u8)) && (((94u8 ^ 197u8) == 155u8) && (((252u8 ^ 138u8) == 118u8) && ((103u8 ^ 254u8) == 153u8))))))
}

#[verifier::opaque]
spec fn bytes_p_5_78() -> bool {
    (bit_of(222u8, 5) == 0u8)
}

#[verifier::opaque]
spec fn bytes_p_5_79() -> bool {
    (((((bit_of(222u8, 6) == 1u8) && ((22u8 ^ 109u8) == 123u8)) && (((94u8 ^ 254u8) == 160u8) && ((255u8 ^ 1u8) == 254u8))) && ((((196u8 ^ 242u8) == 54u8) && ((152u8 ^ 202u8) == 82u8)) && (((179u8 ^ 37u8) == 150u8) && ((79u8 ^ 31u8) == 80u8)))) && (((((246u8 ^ 140u8) == 122u8) && ((168u8 ^ 92u8) == 244u8)) && (((144u8 ^ 225u8) == 113u8) && ((101u8 ^ 131u8) == 230u8))) && ((((157u8 ^ 51u8) == 174u8) && ((21u8 ^ 88u8) == 77u8)) && (((155u8 ^ 21u8) == 142u8) && (((118u8 ^ 43u8) == 93u8) && ((153u8 ^ 250u8) == 99u8))))))
}

#[verifier::opaque]
spec fn bytes_p_5_80() -> bool {
    (((((bit_of(222u8, 7) == 1u8) && ((123u8 ^ 93u8) == 38u8)) && (((160u8 ^ 252u8) == 92u8) && ((254u8 ^ 3u8) == 253u8))) && ((((54u8 ^ 228u8) == 210u8) && ((82u8 ^ 149u8) == 199u8)) && (((150u8 ^ 75u8) == 221u8) && ((80u8 ^ 62u8) == 110u8)))) && (((((122u8 ^ 24u8) == 98u8) && ((244u8 ^ 185u8) == 77u8)) && (((113u8 ^ 194u8) == 179u8) && ((230u8 ^ 7u8) == 225u8))) && ((((174u8 ^ 103u8) == 201u8) && ((77u8 ^ 176u8) == 253u8)) && (((142u8 ^ 42u8) == 164u8) && (((93u8 ^ 86u8) == 11u8) && ((99u8 ^ 244u8) == 151u8))))))
}

#[verifier::opaque]
spec fn bytes_p_5_81() -> bool {
    (bit_of(136u8, 0) == 0u8)
}

#[verifier::opaque]
spec fn bytes_p_5_82() -> bool {
    (bit_of(136u8, 1) == 0u8)
}

#[verifier::opaque]
spec fn bytes_p_5_83() -> bool {
    (bit_of(136u8, 2) == 0u8)
}

#[verifier::opaque]
spec fn bytes_p_5_84() -> bool {
    (((((bit_of(136u8, 3) == 1u8) && ((38u8 ^ 125u8) == 91u8)) && (((92u8 ^ 194u8) == 158u8) && ((253u8 ^ 63u8) == 194u8))) && ((((210u8 ^ 64u8) == 146u8) && ((199u8 ^ 94u8) == 153u8)) && (((221u8 ^ 185u8) == 100u8) && ((110u8 ^ 228u8) == 138u8)))) && (((((98u8 ^ 131u8) == 225u8) && ((77u8 ^ 145u8) == 220u8)) && (((179u8 ^ 43u8) == 152u8) && ((225u8 ^ 124u8) == 157u8))) && ((((201u8 ^ 112u8) == 185u8) && ((253u8 ^ 6u8) == 251u8)) && (((164u8 ^ 171u8) == 15u8) && (((11u8 ^ 98u8) == 105u8) && ((151u8 ^ 69u8) == 210u8))))))
}

#[verifier::opaque]
spec fn bytes_p_5_85() -> bool {
    (bit_of(136u8, 4) == 0u8)
}

#[verifier::opaque]
spec fn bytes_p_5_86() -> bool {
    (bit_of(136u8, 5) == 0u8)
}

#[verifier::opaque]
spec fn bytes_p_5_87() -> bool {
    (bit_of(136u8, 6) == 0u8)
}

#[verifier::opaque]
spec fn bytes_p_5_88() -> bool {
    (((((bit_of(136u8, 7) == 1u8) && ((91u8 ^ 204u8) == 151u8)) && (((158u8 ^ 37u8) == 187u8) && ((194u8 ^ 252u8) == 62u8))) && ((((146u8 ^ 3u8) == 145u8) && ((153u8 ^ 228u8) == 125u8)) && (((100u8 ^ 149u8) == 241u8) && ((138u8 ^ 75u8) == 193u8)))) && (((((225u8 ^ 62u8) == 223u8) && ((220u8 ^ 24u8) == 196u8)) && (((152u8 ^ 185u8) == 33u8) && ((157u8 ^ 194u8) == 95u8))) && ((((185u8 ^ 7u8) == 190u8) && ((251u8 ^ 103u8) == 156u8)) && (((15u8 ^ 176u8) == 191u8) && (((105u8 ^ 42u8) == 67u8) && ((210u8 ^ 86u8) == 132u8))))))
}

#[verifier::opaque]
spec fn bytes_p_5_89() -> bool {
    (bit_of(26u8, 0) == 0u8)
}

#[verifier::opaque]
spec fn bytes_p_5_90() -> bool {
    (((((bit_of(26u8, 1) == 1u8) && ((151u8 ^ 183u8) == 32u8)) && (((187u8 ^ 151u8) == 44u8) && ((62u8 ^ 240u8) == 206u8))) && ((((145u8 ^ 15u8) == 158u8) && ((125u8 ^ 144u8) == 237u8)) && (((241u8 ^ 87u8) == 166u8) && ((193u8 ^ 46u8) == 239u8)))) && (((((223u8 ^ 249u8) == 38u8) && ((196u8 ^ 96u8) == 164u8)) && (((33u8 ^ 228u8) == 197u8) && ((95u8 ^ 10u8) == 85u8))) && ((((190u8 ^ 31u8) == 161u8) && ((156u8 ^ 156u8) == 0u8)) && (((191u8 ^ 193u8) == 126u8) && (((67u8 ^ 170u8) == 233u8) && ((132u8 ^ 88u8) == 220u8))))))
}

#[verifier::opaque]
spec fn bytes_p_5_91() -> bool {
    (bit_of(26u8, 2) == 0u8)
}

#[verifier::opaque]
spec fn bytes_p_5_92() -> bool {
    (((((bit_of(26u8, 3) == 1u8) && ((32u8 ^ 91u8) == 123u8)) && (((44u8 ^ 94u8) == 114u8) && ((206u8 ^ 194u8) == 12u8))) && ((((158u8 ^ 63u8) == 161u8) && ((237u8 ^ 64u8) == 173u8)) && (((166u8 ^ 94u8) == 248u8) && ((239u8 ^ 185u8) == 86u8)))) && (((((38u8 ^ 228u8) == 194u8) && ((164u8 ^ 131u8) == 39u8)) && (((197u8 ^ 145u8) == 84u8) && ((85u8 ^ 43u8) == 126u8))) && ((((161u8 ^ 124u8) == 221u8) && ((0u8 ^ 112u8) == 112u8)) && (((126u8 ^ 6u8) == 120u8) && (((233u8 ^ 171u8) == 66u8) && ((220u8 ^ 98u8) == 190u8))))))
}

#[verifier::opaque]
spec fn bytes_p_5_93() -> bool {
    (((((bit_of(26u8, 4) == 1u8) && ((123u8 ^ 182u8) == 205u8)) && (((114u8 ^ 188u8) == 206u8) && ((12u8 ^ 132u8) == 136u8))) && ((((161u8 ^ 127u8) == 222u8) && ((173u8 ^ 128u8) == 45u8)) && (((248u8 ^ 188u8) == 68u8) && ((86u8 ^ 114u8) == 36u8)))) && (((((194u8 ^ 201u8) == 11u8) && ((39u8 ^ 7u8) == 32u8)) && (((84u8 ^ 35u8) == 119u8) && ((126u8 ^ 87u8) == 41u8))) && ((((221u8 ^ 248u8) == 37u8) && ((112u8 ^ 224u8) == 144u8)) && (((120u8 ^ 12u8) == 116u8) && (((66u8 ^ 86u8) == 20u8) && ((190u8 ^ 197u8) == 123u8))))))
}

#[verifier::opaque]
spec fn bytes_p_5_94() -> bool {
    (bit_of(26u8, 5) == 0u8)
}

#[verifier::opaque]
spec fn bytes_p_5_95() -> bool {
    (bit_of(26u8, 6) == 0u8)
}

#[verifier::opaque]
spec fn bytes_p_5_96() -> bool {
    (bit_of(26u8, 7) == 0u8)
}

#[verifier::opaque]
spec fn bytes_p_5_97() -> bool {
    (((((bit_of(225u8, 0) == 1u8) && ((205u8 ^ 68u8) == 137u8)) && (((206u8 ^ 205u8) == 3u8) && ((136u8 ^ 75u8) == 195u8))) && ((((222u8 ^ 248u8) == 38u8) && ((45u8 ^ 7u8) == 42u8)) && (((68u8 ^ 200u8) == 140u8) && ((36u8 ^ 43u8) == 15u8)))) && (((((11u8 ^ 151u8) == 156u8) && ((32u8 ^ 124u8) == 92u8)) && (((119u8 ^ 48u8) == 71u8) && ((41u8 ^ 114u8) == 91u8))) && ((((37u8 ^ 133u8) == 160u8) && ((144u8 ^ 15u8) == 159u8)) && (((116u8 ^ 206u8) == 186u8) && (((20u8 ^ 96u8) == 116u8) && ((123u8 ^ 85u8) == 46u8))))))
}

#[verifier::opaque]
spec fn bytes_p_5_98() -> bool {
    (bit_of(225u8, 1) == 0u8)
}

#[verifier::opaque]
spec fn bytes_p_5_99() -> bool {
    (bit_of(225u8, 2) == 0u8)
}

#[verifier::opaque]
spec fn bytes_p_5_100() -> bool {
    (bit_of(225u8, 3) == 0u8)
}

#[verifier::opaque]
spec fn bytes_p_5_101() -> bool {
    (bit_of(225u8, 4) == 0u8)
}

#[verifier::opaque]
spec fn bytes_p_5_102() -> bool {
    (((((bit_of(225u8, 5) == 1u8) && ((137u8 ^ 182u8) == 63u8)) && (((3u8 ^ 173u8) == 174u8) && ((195u8 ^ 121u8) == 186u8))) && ((((38u8 ^ 9u8) == 47u8) && ((42u8 ^ 255u8) == 213u8)) && (((140u8 ^ 0u8) == 140u8) && ((15u8 ^ 121u8) == 118u8)))) && (((((156u8 ^ 229u8) == 121u8) && ((92u8 ^ 146u8) == 206u8)) && (((71u8 ^ 15u8) == 72u8) && ((91u8 ^ 70u8) == 29u8))) && ((((160u8 ^ 174u8) == 14u8) && ((159u8 ^ 240u8) == 111u8)) && (((186u8 ^ 193u8) == 123u8) && (((116u8 ^ 25u8) == 109u8) && ((46u8 ^ 172u8) == 130u8))))))
}

#[verifier::opaque]
spec fn bytes_p_5_103() -> bool {
    (((((bit_of(225u8, 6) == 1u8) && ((63u8 ^ 235u8) == 212u8)) && (((174u8 ^ 91u8) == 245u8) && ((186u8 ^ 243u8) == 73u8))) && ((((47u8 ^ 18u8) == 61u8) && ((213u8 ^ 254u8) == 43u8)) && (((140u8 ^ 1u8) == 141u8) && ((118u8 ^ 242u8) == 132u8)))) && (((((121u8 ^ 202u8) == 179u8) && ((206u8 ^ 37u8) == 235u8)) && (((72u8 ^ 31u8) == 87u8) && ((29u8 ^ 140u8) == 145u8))) && ((((14u8 ^ 92u8) == 82u8) && ((111u8 ^ 225u8) == 142u8)) && (((123u8 ^ 131u8) == 248u8) && (((109u8 ^ 51u8) == 94u8) && ((130u8 ^ 88u8) == 218u8))))))
}

#[verifier::opaque]
spec fn bytes_p_5_104() -> bool {
    (((((bit_of(225u8, 7) == 1u8) && ((212u8 ^ 214u8) == 2u8)) && (((245u8 ^ 183u8) == 66u8) && ((73u8 ^ 230u8) == 175u8))) && ((((61u8 ^ 37u8) == 24u8) && ((43u8 ^ 252u8) == 215u8)) && (((141u8 ^ 3u8) == 142u8) && ((132u8 ^ 228u8) == 96u8)))) && (((((179u8 ^ 149u8) == 38u8) && ((235u8 ^ 75u8) == 160u8)) && (((87u8 ^ 62u8) == 105u8) && ((145u8 ^ 24u8) == 137u8))) && ((((82u8 ^ 185u8) == 235u8) && ((142u8 ^ 194u8) == 76u8)) && (((248u8 ^ 7u8) == 255u8) && (((94u8 ^ 103u8) == 57u8) && ((218u8 ^ 176u8) == 106u8))))))
}

#[verifier::opaque]
spec fn bytes_p_5_105() -> bool {
    (bit_of(16u8, 0) == 0u8)
}

#[verifier::opaque]
spec fn bytes_p_5_106() -> bool {
    (bit_of(16u8, 1) == 0u8)
}

#[verifier::opaque]
spec fn bytes_p_5_107() -> bool {
    (bit_of(16u8, 2) == 0u8)
}

#[verifier::opaque]
spec fn bytes_p_5_108() -> bool {
    (bit_of(16u8, 3) == 0u8)
}

#[verifier::opaque]
spec fn bytes_p_5_109() -> bool {
    (((((bit_of(16u8, 4) == 1u8) && ((2u8 ^ 162u8) == 160u8)) && (((66u8 ^ 241u8) == 179u8) && ((175u8 ^ 214u8) == 121u8))) && ((((24u8 ^ 188u8) == 164u8) && ((215u8 ^ 132u8) == 83u8)) && (((142u8 ^ 127u8) == 241u8) && ((96u8 ^ 128u8) == 224u8)))) && (((((38u8 ^ 188u8) == 154u8) && ((160u8 ^ 114u8) == 210u8)) && (((105u8 ^ 201u8) == 160u8) && ((137u8 ^ 7u8) == 142u8))) && ((((235u8 ^ 35u8) == 200u8) && ((76u8 ^ 87u8) == 27u8)) && (((255u8 ^ 248u8) == 7u8) && (((57u8 ^ 224u8) == 217u8) && ((106u8 ^ 12u8) == 102u8))))))
}

#[verifier::opaque]
spec fn bytes_p_5_110() -> bool {
    (bit_of(16u8, 5) == 0u8)
}

#[verifier::opaque]
spec fn bytes_p_5_111() -> bool {
    (bit_of(16u8, 6) == 0u8)
}

#[verifier::opaque]
spec fn bytes_p_5_112() -> bool {
    (bit_of(16u8, 7) == 0u8)
}

#[verifier::opaque]
spec fn bytes_p_5_113() -> bool {
    (bit_of(152u8, 0) == 0u8)
}

#[verifier::opaque]
spec fn bytes_p_5_114() -> bool {
    (bit_of(152u8, 1) == 0u8)
}

#[verifier::opaque]
spec fn bytes_p_5_115() -> bool {
    (bit_of(152u8, 2) == 0u8)
}

#[verifier::opaque]
spec fn bytes_p_5_116() -> bool {
    (((((bit_of(152u8, 3) == 1u8) && ((160u8 ^ 18u8) == 178u8)) && (((179u8 ^ 210u8) == 97u8) && ((121u8 ^ 120u8) == 1u8))) && ((((164u8 ^ 107u8) == 207u8) && ((83u8 ^ 94u8) == 13u8)) && (((241u8 ^ 194u8) == 51u8) && ((224u8 ^ 63u8) == 223u8)))) && (((((154u8 ^ 64u8) == 218u8) && ((210u8 ^ 94u8) == 140u8)) && (((160u8 ^ 185u8) == 25u8) && ((142u8 ^ 228u8) == 106u8))) && ((((200u8 ^ 131u8) == 75u8) && ((27u8 ^ 145u8) == 138u8)) && (((7u8 ^ 43u8) == 44u8) && (((217u8 ^ 124u8) == 165u8) && ((102u8 ^ 112u8) == 22u8))))))
}

#[verifier::opaque]
spec fn bytes_p_5_117() -> bool {
    (((((bit_of(152u8, 4) == 1u8) && ((178u8 ^ 36u8) == 150u8)) && (((97u8 ^ 164u8) == 197u8) && ((1u8 ^ 241u8) == 240u8))) && ((((207u8 ^ 214u8) == 25u8) && ((13u8 ^ 188u8) == 177u8)) && (((51u8 ^ 132u8) == 183u8) && ((223u8 ^ 127u8) == 160u8)))) && (((((218u8 ^ 128u8) == 90u8) && ((140u8 ^ 188u8) == 48u8)) && (((25u8 ^ 114u8) == 107u8) && ((106u8 ^ 201u8) == 163u8))) && ((((75u8 ^ 7u8) == 76u8) && ((138u8 ^ 35u8) == 169u8)) && (((44u8 ^ 87u8) == 123u8) && (((165u8 ^ 248u8) == 93u8) && ((22u8 ^ 224u8) == 246u8))))))
}

#[verifier::opaque]
spec fn bytes_p_5_118() -> bool {
    (bit_of(152u8, 5) == 0u8)
}

#[verifier::opaque]
spec fn bytes_p_5_119() -> bool {
    (bit_of(152u8, 6) == 0u8)
}

#[verifier::opaque]
spec fn bytes_p_5_120() -> bool {
    (((((bit_of(152u8, 7) == 1u8) && ((150u8 ^ 181u8) == 35u8)) && (((197u8 ^ 34u8) == 231u8) && ((240u8 ^ 141u8) == 125u8))) && ((((25u8 ^ 183u8) == 174u8) && ((177u8 ^ 230u8) == 87u8)) && (((183u8 ^ 37u8) == 146u8) && ((160u8 ^ 252u8) == 92u8)))) && (((((90u8 ^ 3u8) == 89u8) && ((48u8 ^ 228u8) == 212u8)) && (((107u8 ^ 149u8) == 254u8) && ((163u8 ^ 75u8) == 232u8))) && ((((76u8 ^ 62u8) == 114u8) && ((169u8 ^ 24u8) == 177u8)) && (((123u8 ^ 185u8) == 194u8) && (((93u8 ^ 194u8) == 159u8) && ((246u8 ^ 7u8) == 241u8))))))
}

#[verifier::opaque]
spec fn bytes_p_5_121() -> bool {
    (bit_of(84u8, 0) == 0u8)
}

#[verifier::opaque]
spec fn bytes_p_5_122() -> bool {
    (bit_of(84u8, 1) == 0u8)
}

#[verifier::opaque]
spec fn bytes_p_5_123() -> bool {
    (((((bit_of(84u8, 2) == 1u8) && ((35u8 ^ 168u8) == 139u8)) && (((231u8 ^ 21u8) == 242u8) && ((125u8 ^ 105u8) == 20u8))) && ((((174u8 ^ 188u8) == 18u8) && ((87u8 ^ 53u8) == 98u8)) && (((146u8 ^ 47u8) == 189u8) && ((92u8 ^ 225u8) == 189u8)))) && (((((89u8 ^ 31u8) == 70u8) && ((212u8 ^ 32u8) == 244u8)) && (((254u8 ^ 175u8) == 81u8) && ((232u8 ^ 92u8) == 180u8))) && ((((114u8 ^ 242u8) == 128u8) && ((177u8 ^ 193u8) == 112u8)) && (((194u8 ^ 200u8) == 10u8) && (((159u8 ^ 21u8) == 138u8) && ((241u8 ^ 62u8) == 207u8))))))
}

#[verifier::opaque]
spec fn bytes_p_5_124() -> bool {
    (bit_of(84u8, 3) == 0u8)
}

#[verifier::opaque]
spec fn bytes_p_5_125() -> bool {
    (((((bit_of(84u8, 4) == 1u8) && ((139u8 ^ 160u8) == 43u8)) && (((242u8 ^ 86u8) == 164u8) && ((20u8 ^ 164u8) == 176u8))) && ((((18u8 ^ 241u8) == 227u8) && ((98u8 ^ 214u8) == 180u8)) && (((189u8 ^ 188u8) == 1u8) && ((189u8 ^ 132u8) == 57u8)))) && (((((70u8 ^ 127u8) == 57u8) && ((244u8 ^ 128u8) == 116u8)) && (((81u8 ^ 188u8) == 237u8) && ((180u8 ^ 114u8) == 198u8))) && ((((128u8 ^ 201u8) == 73u8) && ((112u8 ^ 7u8) == 119u8)) && (((10u8 ^ 35u8) == 41u8) && (((138u8 ^ 87u8) == 221u8) && ((207u8 ^ 248u8) == 55u8))))))
}

#[verifier::opaque]
spec fn bytes_p_5_126() -> bool {
    (bit_of(84u8, 5) == 0u8)
}

#[verifier::opaque]
spec fn bytes_p_5_127() -> bool {
    (((((bit_of(84u8, 6) == 1u8) && ((43u8 ^ 9u8) == 34u8)) && (((164u8 ^ 91u8) == 255u8) && ((176u8 ^ 145u8) == 33u8))) && ((((227u8 ^ 198u8) == 37u8) && ((180u8 ^ 91u8) == 239u8)) && (((1u8 ^ 243u8) == 242u8) && ((57u8 ^ 18u8) == 43u8)))) && (((((57u8 ^ 254u8) == 199u8) && ((116u8 ^ 1u8) == 117u8)) && (((237u8 ^ 242u8) == 31u8) && ((198u8 ^ 202u8) == 12u8))) && ((((73u8 ^ 37u8) == 108u8) && ((119u8 ^ 31u8) == 104u8)) && (((41u8 ^ 140u8) == 165u8) && (((221u8 ^ 92u8) == 129u8) && ((55u8 ^ 225u8) == 214u8))))))
}

#[verifier::opaque]
spec fn bytes_p_5_128() -> bool {
    (bit_of(84u8, 7) == 0u8)
}

#[verifier::opaque]
spec fn bytes_p_6_1() -> bool {
    (bit_of(34u8, 0) == 0u8)
}

#[verifier::opaque]
spec fn bytes_p_6_2() -> bool {
    (((((bit_of(34u8, 1) == 1u8) && ((0u8 ^ 26u8) == 26u8)) && (((0u8 ^ 156u8) == 156u8) && ((0u8 ^ 193u8) == 193u8))) && ((((0u8 ^ 170u8) == 170u8) && ((0u8 ^ 88u8) == 88u8)) && (((0u8 ^ 209u8) == 209u8) && ((0u8 ^ 127u8) == 127u8)))) && (((((0u8 ^ 66u8) == 66u8) && ((0u8 ^ 57u8) == 57u8)) && (((0u8 ^ 52u8) == 52u8) && ((0u8 ^ 47u8) == 47u8))) && ((((0u8 ^ 83u8) == 83u8) && ((0u8 ^ 171u8) == 171u8)) && (((0u8 ^ 10u8) == 10u8) && ((0u8 ^ 123u8) == 123u8)))))
}

#[verifier::opaque]
spec fn bytes_p_6_3() -> bool {
    (bit_of(34u8, 2) == 0u8)
}

#[verifier::opaque]
spec fn bytes_p_6_4() -> bool {
    (bit_of(34u8, 3) == 0u8)
}

#[verifier::opaque]
spec fn bytes_p_6_5() -> bool {
    (bit_of(34u8, 4) == 0u8)
}

#[verifier::opaque]
spec fn bytes_p_6_6() -> bool {
    (((((bit_of(34u8, 5) == 1u8) && ((26u8 ^ 160u8) == 186u8)) && (((156u8 ^ 193u8) == 93u8) && ((193u8 ^ 25u8) == 216u8))) && ((((170u8 ^ 172u8) == 6u8) && ((88u8 ^ 138u8) == 210u8)) && (((209u8 ^ 21u8) == 196u8) && ((127u8 ^ 253u8) == 130u8)))) && (((((66u8 ^ 39u8) == 101u8) && ((57u8 ^ 148u8) == 173u8)) && (((52u8 ^ 67u8) == 119u8) && ((47u8 ^ 243u8) == 220u8))) && ((((83u8 ^ 50u8) == 97u8) && ((171u8 ^ 181u8) == 30u8)) && (((10u8 ^ 170u8) == 160u8) && (((123u8 ^ 176u8) == 203u8) && ((10u8 ^ 167u8) == 173u8))))))
}

#[verifier::opaque]
spec fn bytes_p_6_7() -> bool {
    (bit_of(34u8, 6) == 0u8)
}

#[verifier::opaque]
spec fn bytes_p_6_8() -> bool {
    (bit_of(34u8, 7) == 0u8)
}

#[verifier::opaque]
spec fn bytes_p_6_9() -> bool {
    (((((bit_of(255u8, 0) == 1u8) && ((186u8 ^ 155u8) == 33u8)) && (((93u8 ^ 15u8) == 82u8) && ((216u8 ^ 206u8) == 22u8))) && ((((6u8 ^ 96u8) == 102u8) && ((210u8 ^ 85u8) == 135u8)) && (((196u8 ^ 172u8) == 104u8) && ((130u8 ^ 232u8) == 106u8)))) && (((((101u8 ^ 63u8) == 90u8) && ((173u8 ^ 161u8) == 12u8)) && (((119u8 ^ 28u8) == 107u8) && ((220u8 ^ 154u8) == 70u8))) && ((((97u8 ^ 151u8) == 246u8) && ((30u8 ^ 169u8) == 183u8)) && (((160u8 ^ 85u8) == 245u8) && (((203u8 ^ 133u8) == 78u8) && ((173u8 ^ 61u8) == 144u8))))))
}

#[verifier::opaque]
spec fn bytes_p_6_10() -> bool {
    (((((bit_of(255u8, 1) == 1u8) && ((33u8 ^ 54u8) == 23u8)) && (((82u8 ^ 31u8) == 77u8) && ((22u8 ^ 156u8) == 138u8))) && ((((102u8 ^ 193u8) == 167u8) && ((135u8 ^ 170u8) == 45u8)) && (((104u8 ^ 88u8) == 48u8) && ((106u8 ^ 209u8) == 187u8)))) && (((((90u8 ^ 127u8) == 37u8) && ((12u8 ^ 66u8) == 78u8)) && (((107u8 ^ 57u8) == 82u8) && ((70u8 ^ 52u8) == 114u8))) && ((((246u8 ^ 47u8) == 217u8) && ((183u8 ^ 83u8) == 228u8)) && (((245u8 ^ 171u8) == 94u8) && (((78u8 ^ 10u8) == 68u8) && ((144u8 ^ 123u8) == 235u8))))))
}

#[verifier::opaque]
spec fn bytes_p_6_11() -> bool {
    (((((bit_of(255u8, 2) == 1u8) && ((23u8 ^ 108u8) == 123u8)) && (((77u8 ^ 62u8) == 115u8) && ((138u8 ^ 56u8) == 178u8))) && ((((167u8 ^ 131u8) == 36u8) && ((45u8 ^ 85u8) == 120u8)) && (((48u8 ^ 177u8) == 129u8) && ((187u8 ^ 162u8) == 25u8)))) && (((((37u8 ^ 255u8) == 218u8) && ((78u8 ^ 132u8) == 202u8)) && (((82u8 ^ 114u8) == 32u8) && ((114u8 ^ 104u8) == 26u8))) && ((((217u8 ^ 94u8) == 135u8) && ((228u8 ^ 166u8) == 66u8)) && (((94u8 ^ 86u8) == 8u8) && (((68u8 ^ 21u8) == 81u8) && ((235u8 ^ 246u8) == 29u8))))))
}

#[verifier::opaque]
spec fn bytes_p_6_12() -> bool {
    (((((bit_of(255u8, 3) == 1u8) && ((123u8 ^ 95u8) == 36u8)) && (((115u8 ^ 124u8) == 15u8) && ((178u8 ^ 112u8) == 194u8))) && ((((36u8 ^ 6u8) == 34u8) && ((120u8 ^ 171u8) == 211u8)) && (((129u8 ^ 98u8) == 227u8) && ((25u8 ^ 69u8) == 92u8)))) && (((((218u8 ^ 255u8) == 37u8) && ((202u8 ^ 9u8) == 195u8)) && (((32u8 ^ 229u8) == 197u8) && ((26u8 ^ 208u8) == 202u8))) && ((((135u8 ^ 188u8) == 59u8) && ((66u8 ^ 76u8) == 14u8)) && (((8u8 ^ 173u8) == 165u8) && (((81u8 ^ 42u8) == 123u8) && ((29u8 ^ 236u8) == 241u8))))))
}

#[verifier::opaque]
spec fn bytes_p_6_13() -> bool {
    (((((bit_of(255u8, 4) == 1u8) && ((36u8 ^ 57u8) == 29u8)) && (((15u8 ^ 248u8) == 247u8) && ((194u8 ^ 224u8) == 34u8))) && ((((34u8 ^ 12u8) == 46u8) && ((211u8 ^ 86u8) == 133u8)) && (((227u8 ^ 197u8) == 38u8) && ((92u8 ^ 138u8) == 214u8)))) && (((((37u8 ^ 254u8) == 219u8) && ((195u8 ^ 19u8) == 208u8)) && (((197u8 ^ 202u8) == 15u8) && ((202u8 ^ 161u8) == 107u8))) && ((((59u8 ^ 121u8) == 66u8) && ((14u8 ^ 153u8) == 151u8)) && (((165u8 ^ 90u8) == 255u8) && (((123u8 ^ 85u8) == 46u8) && ((241u8 ^ 216u8) == 41u8))))))
}

#[verifier::opaque]
spec fn bytes_p_6_14() -> bool {
    (((((bit_of(255u8, 5) == 1u8) && ((29u8 ^ 245u8) == 232u8)) && (((247u8 ^ 240u8) == 7u8) && ((34u8 ^ 193u8) == 227u8))) && ((((46u8 ^ 25u8) == 55u8) && ((133u8 ^ 172u8) == 41u8)) && (((38u8 ^ 138u8) == 172u8) && ((214u8 ^ 21u8) == 195u8)))) && (((((219u8 ^ 253u8) == 38u8) && ((208u8 ^ 39u8) == 247u8)) && (((15u8 ^ 148u8) == 155u8) && ((107u8 ^ 67u8) == 40u8))) && ((((66u8 ^ 243u8) == 177u8) && ((151u8 ^ 50u8) == 165u8)) && (((255u8 ^ 181u8) == 74u8) && (((46u8 ^ 170u8) == 132u8) && ((41u8 ^ 176u8) == 153u8))))))
}

#[verifier::opaque]
spec fn bytes_p_6_15() -> bool {
    (((((bit_of(255u8, 6) == 1u8) && ((232u8 ^ 109u8) == 133u8)) && (((7u8 ^ 225u8) == 230u8) && ((227u8 ^ 131u8) == 96u8))) && ((((55u8 ^ 51u8) == 4u8) && ((41u8 ^ 88u8) == 113u8)) && (((172u8 ^ 21u8) == 185u8) && ((195u8 ^ 43u8) == 232u8)))) && (((((38u8 ^ 250u8) == 220u8) && ((247u8 ^ 79u8) == 184u8)) && (((155u8 ^ 40u8) == 179u8) && ((40u8 ^ 135u8) == 175u8))) && ((((177u8 ^ 230u8) == 87u8) && ((165u8 ^ 101u8) == 192u8)) && (((74u8 ^ 106u8) == 32u8) && (((132u8 ^ 85u8) == 209u8) && ((153u8 ^ 97u8) == 248u8))))))
}

#[verifier::opaque]
spec fn bytes_p_6_16() -> bool {
    (((((bit_of(255u8, 7) == 1u8) && ((133u8 ^ 218u8) == 95u8)) && (((230u8 ^ 194u8) == 36u8) && ((96u8 ^ 7u8) == 103u8))) && ((((4u8 ^ 103u8) == 99u8) && ((113u8 ^ 176u8) == 193u8)) && (((185u8 ^ 42u8) == 147u8) && ((232u8 ^ 86u8) == 190u8)))) && (((((220u8 ^ 244u8) == 40u8) && ((184u8 ^ 159u8) == 39u8)) && (((179u8 ^ 80u8) == 227u8) && ((175u8 ^ 14u8) == 161u8))) && ((((87u8 ^ 205u8) == 154u8) && ((192u8 ^ 203u8) == 11u8)) && (((32u8 ^ 212u8) == 244u8) && (((209u8 ^ 170u8) == 123u8) && ((248u8 ^ 194u8) == 58u8))))))
}

#[verifier::opaque]
spec fn bytes_p_6_17() -> bool {
    (((((bit_of(33u8, 0) == 1u8) && ((95u8 ^ 51u8) == 108u8)) && (((36u8 ^ 133u8) == 161u8) && ((103u8 ^ 15u8) == 104u8))) && ((((99u8 ^ 206u8) == 173u8) && ((193u8 ^ 96u8) == 161u8)) && (((147u8 ^ 85u8) == 198u8) && ((190u8 ^ 172u8) == 18u8)))) && (((((40u8 ^ 232u8) == 192u8) && ((39u8 ^ 63u8) == 24u8)) && (((227u8 ^ 161u8) == 66u8) && ((161u8 ^ 28u8) == 189u8))) && ((((154u8 ^ 154u8) == 0u8) && ((11u8 ^ 151u8) == 156u8)) && (((244u8 ^ 169u8) == 93u8) && (((123u8 ^ 85u8) == 46u8) && ((58u8 ^ 133u8) == 191u8))))))
}

#[verifier::opaque]
spec fn bytes_p_6_18() -> bool {
    (bit_of(33u8, 1) == 0u8)
}

#[verifier::opaque]
spec fn bytes_p_6_19() -> bool {
    (bit_of(33u8, 2) == 0u8)
}

#[verifier::opaque]
spec fn bytes_p_6_20() -> bool {
    (bit_of(33u8, 3) == 0u8)
}

#[verifier::opaque]
spec fn bytes_p_6_21() -> bool {
    (bit_of(33u8, 4) == 0u8)
}

#[verifier::opaque]
spec fn bytes_p_6_22() -> bool {
    (((((bit_of(33u8, 5) == 1u8) && ((108u8 ^ 16u8) == 124u8)) && (((161u8 ^ 174u8) == 15u8) && ((104u8 ^ 240u8) == 152u8))) && ((((173u8 ^ 193u8) == 108u8) && ((161u8 ^ 25u8) == 184u8)) && (((198u8 ^ 172u8) == 106u8) && ((18u8 ^ 138u8) == 152u8)))) && (((((192u8 ^ 21u8) == 213u8) && ((24u8 ^ 253u8) == 229u8)) && (((66u8 ^ 39u8) == 101u8) && ((189u8 ^ 148u8) == 41u8))) && ((((0u8 ^ 67u8) == 67u8) && ((156u8 ^ 243u8) == 111u8)) && (((93u8 ^ 50u8) == 111u8) && (((46u8 ^ 181u8) == 155u8) && ((191u8 ^ 170u8) == 21u8))))))
}

#[verifier::opaque]
spec fn bytes_p_6_23() -> bool {
    (bit_of(33u8, 6) == 0u8)
}

#[verifier::opaque]
spec fn bytes_p_6_24() -> bool {
    (bit_of(33u8, 7) == 0u8)
}

#[verifier::opaque]
spec fn bytes_p_6_25() -> bool {
    (((((bit_of(37u8, 0) == 1u8) && ((124u8 ^ 27u8) == 103u8)) && (((15u8 ^ 114u8) == 125u8) && ((152u8 ^ 133u8) == 29u8))) && ((((108u8 ^ 15u8) == 99u8) && ((184u8 ^ 206u8) == 118u8)) && (((106u8 ^ 96u8) == 10u8) && ((152u8 ^ 85u8) == 205u8)))) && (((((213u8 ^ 172u8) == 121u8) && ((229u8 ^ 232u8) == 13u8)) && (((101u8 ^ 63u8) == 90u8) && ((41u8 ^ 161u8) == 136u8))) && ((((67u8 ^ 28u8) == 95u8) && ((111u8 ^ 154u8) == 245u8)) && (((111u8 ^ 151u8) == 248u8) && (((155u8 ^ 169u8) == 50u8) && ((21u8 ^ 85u8) == 64u8))))))
}

#[verifier::opaque]
spec fn bytes_p_6_26() -> bool {
    (bit_of(37u8, 1) == 0u8)
}

#[verifier::opaque]
spec fn bytes_p_6_27() -> bool {
    (((((bit_of(37u8, 2) == 1u8) && ((103u8 ^ 235u8) == 140u8)) && (((125u8 ^ 200u8) == 181u8) && ((29u8 ^ 21u8) == 8u8))) && ((((99u8 ^ 62u8) == 93u8) && ((118u8 ^ 56u8) == 78u8)) && (((10u8 ^ 131u8) == 137u8) && ((205u8 ^ 85u8) == 152u8)))) && (((((121u8 ^ 177u8) == 200u8) && ((13u8 ^ 162u8) == 175u8)) && (((90u8 ^ 255u8) == 165u8) && ((136u8 ^ 132u8) == 12u8))) && ((((95u8 ^ 114u8) == 45u8) && ((245u8 ^ 104u8) == 157u8)) && (((248u8 ^ 94u8) == 166u8) && (((50u8 ^ 166u8) == 148u8) && ((64u8 ^ 86u8) == 22u8))))))
}

#[verifier::opaque]
spec fn bytes_p_6_28() -> bool {
    (bit_of(37u8, 3) == 0u8)
}

#[verifier::opaque]
spec fn bytes_p_6_29() -> bool {
    (bit_of(37u8, 4) == 0u8)
}

#[verifier::opaque]
spec fn bytes_p_6_30() -> bool {
    (((((bit_of(37u8, 5) == 1u8) && ((140u8 ^ 86u8) == 218u8)) && (((181u8 ^ 70u8) == 243u8) && ((8u8 ^ 174u8) == 166u8))) && ((((93u8 ^ 240u8) == 173u8) && ((78u8 ^ 193u8) == 143u8)) && (((137u8 ^ 25u8) == 144u8) && ((152u8 ^ 172u8) == 52u8)))) && (((((200u8 ^ 138u8) == 66u8) && ((175u8 ^ 21u8) == 186u8)) && (((165u8 ^ 253u8) == 88u8) && ((12u8 ^ 39u8) == 43u8))) && ((((45u8 ^ 148u8) == 185u8) && ((157u8 ^ 67u8) == 222u8)) && (((166u8 ^ 243u8) == 85u8) && (((148u8 ^ 50u8) == 166u8) && ((22u8 ^ 181u8) == 163u8))))))
}

#[verifier::opaque]
spec fn bytes_p_6_31() -> bool {
    (bit_of(37u8, 6) == 0u8)
}

#[verifier::opaque]
spec fn bytes_p_6_32() -> bool {
    (bit_of(37u8, 7) == 0u8)
}

#[verifier::opaque]
spec fn bytes_p_6_33() -> bool {
    (((((bit_of(239u8, 0) == 1u8) && ((218u8 ^ 43u8) == 241u8)) && (((243u8 ^ 48u8) == 195u8) && ((166u8 ^ 114u8) == 212u8))) && ((((173u8 ^ 133u8) == 40u8) && ((143u8 ^ 15u8) == 128u8)) && (((144u8 ^ 206u8) == 94u8) && ((52u8 ^ 96u8) == 84u8)))) && (((((66u8 ^ 85u8) == 23u8) && ((186u8 ^ 172u8) == 22u8)) && (((88u8 ^ 232u8) == 176u8) && ((43u8 ^ 63u8) == 20u8))) && ((((185u8 ^ 161u8) == 24u8) && ((222u8 ^ 28u8) == 194u8)) && (((85u8 ^ 154u8) == 207u8) && (((166u8 ^ 151u8) == 49u8) && ((163u8 ^ 169u8) == 10u8))))))
}

#[verifier::opaque]
spec fn bytes_p_6_34() -> bool {
    (((((bit_of(239u8, 1) == 1u8) && ((241u8 ^ 209u8) == 32u8)) && (((195u8 ^ 96u8) == 163u8) && ((212u8 ^ 228u8) == 48u8))) && ((((40u8 ^ 10u8) == 34u8) && ((128u8 ^ 31u8) == 159u8)) && (((94u8 ^ 156u8) == 194u8) && ((84u8 ^ 193u8) == 149u8)))) && (((((23u8 ^ 170u8) == 189u8) && ((22u8 ^ 88u8) == 78u8)) && (((176u8 ^ 209u8) == 97u8) && ((20u8 ^ 127u8) == 107u8))) && ((((24u8 ^ 66u8) == 90u8) && ((194u8 ^ 57u8) == 251u8)) && (((207u8 ^ 52u8) == 251u8) && (((49u8 ^ 47u8) == 30u8) && ((10u8 ^ 83u8) == 89u8))))))
}

#[verifier::opaque]
spec fn bytes_p_6_35() -> bool {
    (((((bit_of(239u8, 2) == 1u8) && ((32u8 ^ 162u8) == 130u8)) && (((163u8 ^ 193u8) == 98u8) && ((48u8 ^ 200u8) == 248u8))) && ((((34u8 ^ 21u8) == 55u8) && ((159u8 ^ 62u8) == 161u8)) && (((194u8 ^ 56u8) == 250u8) && ((149u8 ^ 131u8) == 22u8)))) && (((((189u8 ^ 85u8) == 232u8) && ((78u8 ^ 177u8) == 255u8)) && (((97u8 ^ 162u8) == 195u8) && ((107u8 ^ 255u8) == 148u8))) && ((((90u8 ^ 132u8) == 222u8) && ((251u8 ^ 114u8) == 137u8)) && (((251u8 ^ 104u8) == 147u8) && (((30u8 ^ 94u8) == 64u8) && ((89u8 ^ 166u8) == 255u8))))))
}

#[verifier::opaque]
spec fn bytes_p_6_36() -> bool {
    (((((bit_of(239u8, 3) == 1u8) && ((130u8 ^ 195u8) == 65u8)) && (((98u8 ^ 131u8) == 225u8) && ((248u8 ^ 145u8) == 105u8))) && ((((55u8 ^ 43u8) == 28u8) && ((161u8 ^ 124u8) == 221u8)) && (((250u8 ^ 112u8) == 138u8) && ((22u8 ^ 6u8) == 16u8)))) && (((((232u8 ^ 171u8) == 67u8) && ((255u8 ^ 98u8) == 157u8)) && (((195u8 ^ 69u8) == 134u8) && ((148u8 ^ 255u8) == 107u8))) && ((((222u8 ^ 9u8) == 215u8) && ((137u8 ^ 229u8) == 108u8)) && (((147u8 ^ 208u8) == 67u8) && (((64u8 ^ 188u8) == 252u8) && ((255u8 ^ 76u8) == 179u8))))))
}

#[verifier::opaque]
spec fn bytes_p_6_37() -> bool {
    (bit_of(239u8, 4) == 0u8)
}

#[verifier::opaque]
spec fn bytes_p_6_38() -> bool {
    (((((bit_of(239u8, 5) == 1u8) && ((65u8 ^ 139u8) == 202u8)) && (((225u8 ^ 15u8) == 238u8) && ((105u8 ^ 70u8) == 47u8))) && ((((28u8 ^ 174u8) == 178u8) && ((221u8 ^ 240u8) == 45u8)) && (((138u8 ^ 193u8) == 75u8) && ((16u8 ^ 25u8) == 9u8)))) && (((((67u8 ^ 172u8) == 239u8) && ((157u8 ^ 138u8) == 23u8)) && (((134u8 ^ 21u8) == 147u8) && ((107u8 ^ 253u8) == 150u8))) && ((((215u8 ^ 39u8) == 240u8) && ((108u8 ^ 148u8) == 248u8)) && (((67u8 ^ 67u8) == 0u8) && (((252u8 ^ 243u8) == 15u8) && ((179u8 ^ 50u8) == 129u8))))))
}

#[verifier::opaque]
spec fn bytes_p_6_39() -> bool {
    (((((bit_of(239u8, 6) == 1u8) && ((202u8 ^ 22u8) == 220u8)) && (((238u8 ^ 31u8) == 241u8) && ((47u8 ^ 140u8) == 163u8))) && ((((178u8 ^ 92u8) == 238u8) && ((45u8 ^ 225u8) == 204u8)) && (((75u8 ^ 131u8) == 200u8) && ((9u8 ^ 51u8) == 58u8)))) && (((((239u8 ^ 88u8) == 183u8) && ((23u8 ^ 21u8) == 2u8)) && (((147u8 ^ 43u8) == 184u8) && ((150u8 ^ 250u8) == 108u8))) && ((((240u8 ^ 79u8) == 191u8) && ((248u8 ^ 40u8) == 208u8)) && (((0u8 ^ 135u8) == 135u8) && (((15u8 ^ 230u8) == 233u8) && ((129u8 ^ 101u8) == 228u8))))))
}

#[verifier::opaque]
spec fn bytes_p_6_40() -> bool {
    (((((bit_of(239u8, 7) == 1u8) && ((220u8 ^ 44u8) == 240u8)) && (((241u8 ^ 62u8) == 207u8) && ((163u8 ^ 24u8) == 187u8))) && ((((238u8 ^ 185u8) == 87u8) && ((204u8 ^ 194u8) == 14u8)) && (((200u8 ^ 7u8) == 207u8) && ((58u8 ^ 103u8) == 93u8)))) && (((((183u8 ^ 176u8) == 7u8) && ((2u8 ^ 42u8) == 40u8)) && (((184u8 ^ 86u8) == 238u8) && ((108u8 ^ 244u8) == 152u8))) && ((((191u8 ^ 159u8) == 32u8) && ((208u8 ^ 80u8) == 128u8)) && (((135u8 ^ 14u8) == 137u8) && (((233u8 ^ 205u8) == 36u8) && ((228u8 ^ 203u8) == 47u8))))))
}

#[verifier::opaque]
spec fn bytes_p_6_41() -> bool {
    (bit_of(242u8, 0) == 0u8)
}

#[verifier::opaque]
spec fn bytes_p_6_42() -> bool {
    (((((bit_of(242u8, 1) == 1u8) && ((240u8 ^ 57u8) == 201u8)) && (((207u8 ^ 249u8) == 54u8) && ((187u8 ^ 96u8) == 219u8))) && ((((87u8 ^ 228u8) == 179u8) && ((14u8 ^ 10u8) == 4u8)) && (((207u8 ^ 31u8) == 208u8) && ((93u8 ^ 156u8) == 193u8)))) && (((((7u8 ^ 193u8) == 198u8) && ((40u8 ^ 170u8) == 130u8)) && (((238u8 ^ 88u8) == 182u8) && ((152u8 ^ 209u8) == 73u8))) && ((((32u8 ^ 127u8) == 95u8) && ((128u8 ^ 66u8) == 194u8)) && (((137u8 ^ 57u8) == 176u8) && (((36u8 ^ 52u8) == 16u8) && ((47u8 ^ 47u8) == 0u8))))))
}

#[verifier::opaque]
spec fn bytes_p_6_43() -> bool {
    (bit_of(242u8, 2) == 0u8)
}

#[verifier::opaque]
spec fn bytes_p_6_44() -> bool {
    (bit_of(242u8, 3) == 0u8)
}

#[verifier::opaque]
spec fn bytes_p_6_45() -> bool {
    (((((bit_of(242u8, 4) == 1u8) && ((201u8 ^ 79u8) == 134u8)) && (((54u8 ^ 201u8) == 255u8) && ((219u8 ^ 7u8) == 220u8))) && ((((179u8 ^ 35u8) == 144u8) && ((4u8 ^ 87u8) == 83u8)) && (((208u8 ^ 248u8) == 40u8) && ((193u8 ^ 224u8) == 33u8)))) && (((((198u8 ^ 12u8) == 202u8) && ((130u8 ^ 86u8) == 212u8)) && (((182u8 ^ 197u8) == 115u8) && ((73u8 ^ 138u8) == 195u8))) && ((((95u8 ^ 254u8) == 161u8) && ((194u8 ^ 19u8) == 209u8)) && (((176u8 ^ 202u8) == 122u8) && (((16u8 ^ 161u8) == 177u8) && ((0u8 ^ 121u8) == 121u8))))))
}

#[verifier::opaque]
spec fn bytes_p_6_46() -> bool {
    (((((bit_of(242u8, 5) == 1u8) && ((134u8 ^ 158u8) == 24u8)) && (((255u8 ^ 146u8) == 109u8) && ((220u8 ^ 15u8) == 211u8))) && ((((144u8 ^ 70u8) == 214u8) && ((83u8 ^ 174u8) == 253u8)) && (((40u8 ^ 240u8) == 216u8) && ((33u8 ^ 193u8) == 224u8)))) && (((((202u8 ^ 25u8) == 211u8) && ((212u8 ^ 172u8) == 120u8)) && (((115u8 ^ 138u8) == 249u8) && ((195u8 ^ 21u8) == 214u8))) && ((((161u8 ^ 253u8) == 92u8) && ((209u8 ^ 39u8) == 246u8)) && (((122u8 ^ 148u8) == 238u8) && (((177u8 ^ 67u8) == 242u8) && ((121u8 ^ 243u8) == 138u8))))))
}

#[verifier::opaque]
spec fn bytes_p_6_47() -> bool {
    (((((bit_of(242u8, 6) == 1u8) && ((24u8 ^ 187u8) == 163u8)) && (((109u8 ^ 37u8) == 72u8) && ((211u8 ^ 31u8) == 204u8))) && ((((214u8 ^ 140u8) == 90u8) && ((253u8 ^ 92u8) == 161u8)) && (((216u8 ^ 225u8) == 57u8) && ((224u8 ^ 131u8) == 99u8)))) && (((((211u8 ^ 51u8) == 224u8) && ((120u8 ^ 88u8) == 32u8)) && (((249u8 ^ 21u8) == 236u8) && ((214u8 ^ 43u8) == 253u8))) && ((((92u8 ^ 250u8) == 166u8) && ((246u8 ^ 79u8) == 185u8)) && (((238u8 ^ 40u8) == 198u8) && (((242u8 ^ 135u8) == 117u8) && ((138u8 ^ 230u8) == 108u8))))))
}

#[verifier::opaque]
spec fn bytes_p_6_48() -> bool {
    (((((bit_of(242u8, 7) == 1u8) && ((163u8 ^ 241u8) == 82u8)) && (((72u8 ^ 75u8) == 3u8) && ((204u8 ^ 62u8) == 242u8))) && ((((90u8 ^ 24u8) == 66u8) && ((161u8 ^ 185u8) == 24u8)) && (((57u8 ^ 194u8) == 251u8) && ((99u8 ^ 7u8) == 100u8)))) && (((((224u8 ^ 103u8) == 135u8) && ((32u8 ^ 176u8) == 144u8)) && (((236u8 ^ 42u8) == 198u8) && ((253u8 ^ 86u8) == 171u8))) && ((((166u8 ^ 244u8) == 82u8) && ((185u8 ^ 159u8) == 38u8)) && (((198u8 ^ 80u8) == 150u8) && (((117u8 ^ 14u8) == 123u8) && ((108u8 ^ 205u8) == 161u8))))))
}

#[verifier::opaque]
spec fn bytes_p_6_49() -> bool {
    (((((bit_of(43u8, 0) == 1u8) && ((82u8 ^ 101u8) == 55u8)) && (((3u8 ^ 151u8) == 148u8) && ((242u8 ^ 124u8) == 142u8))) && ((((66u8 ^ 48u8) == 114u8) && ((24u8 ^ 114u8) == 106u8)) && (((251u8 ^ 133u8) == 126u8) && ((100u8 ^ 15u8) == 107u8)))) && (((((135u8 ^ 206u8) == 73u8) && ((144u8 ^ 96u8) == 240u8)) && (((198u8 ^ 85u8) == 147u8) && ((171u8 ^ 172u8) == 7u8))) && ((((82u8 ^ 232u8) == 186u8) && ((38u8 ^ 63u8) == 25u8)) && (((150u8 ^ 161u8) == 55u8) && (((123u8 ^ 28u8) == 103u8) && ((161u8 ^ 154u8) == 59u8))))))
}

#[verifier::opaque]
spec fn bytes_p_6_50() -> bool {
    (((((bit_of(43u8, 1) == 1u8) && ((55u8 ^ 77u8) == 122u8)) && (((148u8 ^ 46u8) == 186u8) && ((142u8 ^ 249u8) == 119u8))) && ((((114u8 ^ 96u8) == 18u8) && ((106u8 ^ 228u8) == 142u8)) && (((126u8 ^ 10u8) == 116u8) && ((107u8 ^ 31u8) == 116u8)))) && (((((73u8 ^ 156u8) == 213u8) && ((240u8 ^ 193u8) == 49u8)) && (((147u8 ^ 170u8) == 57u8) && ((7u8 ^ 88u8) == 95u8))) && ((((186u8 ^ 209u8) == 107u8) && ((25u8 ^ 127u8) == 102u8)) && (((55u8 ^ 66u8) == 117u8) && (((103u8 ^ 57u8) == 94u8) && ((59u8 ^ 52u8) == 15u8))))))
}

#[verifier::opaque]
spec fn bytes_p_6_51() -> bool {
    (bit_of(43u8, 2) == 0u8)
}

#[verifier::opaque]
spec fn bytes_p_6_52() -> bool {
    (((((bit_of(43u8, 3) == 1u8) && ((122u8 ^ 52u8) == 78u8)) && (((186u8 ^ 185u8) == 3u8) && ((119u8 ^ 228u8) == 147u8))) && ((((18u8 ^ 131u8) == 145u8) && ((142u8 ^ 145u8) == 31u8)) && (((116u8 ^ 43u8) == 95u8) && ((116u8 ^ 124u8) == 8u8)))) && (((((213u8 ^ 112u8) == 165u8) && ((49u8 ^ 6u8) == 55u8)) && (((57u8 ^ 171u8) == 146u8) && ((95u8 ^ 98u8) == 61u8))) && ((((107u8 ^ 69u8) == 46u8) && ((102u8 ^ 255u8) == 153u8)) && (((117u8 ^ 9u8) == 124u8) && (((94u8 ^ 229u8) == 187u8) && ((15u8 ^ 208u8) == 223u8))))))
}

#[verifier::opaque]
spec fn bytes_p_6_53() -> bool {
    (bit_of(43u8, 4) == 0u8)
}

#[verifier::opaque]
spec fn bytes_p_6_54() -> bool {
    (((((bit_of(43u8, 5) == 1u8) && ((78u8 ^ 89u8) == 23u8)) && (((3u8 ^ 229u8) == 230u8) && ((147u8 ^ 146u8) == 1u8))) && ((((145u8 ^ 15u8) == 158u8) && ((31u8 ^ 70u8) == 89u8)) && (((95u8 ^ 174u8) == 241u8) && ((8u8 ^ 240u8) == 248u8)))) && (((((165u8 ^ 193u8) == 100u8) && ((55u8 ^ 25u8) == 46u8)) && (((146u8 ^ 172u8) == 62u8) && ((61u8 ^ 138u8) == 183u8))) && ((((46u8 ^ 21u8) == 59u8) && ((153u8 ^ 253u8) == 100u8)) && (((124u8 ^ 39u8) == 91u8) && (((187u8 ^ 148u8) == 47u8) && ((223u8 ^ 67u8) == 156u8))))))
}

#[verifier::opaque]
spec fn bytes_p_6_55() -> bool {
    (bit_of(43u8, 6) == 0u8)
}

#[verifier::opaque]
spec fn bytes_p_6_56() -> bool {
    (bit_of(43u8, 7) == 0u8)
}

#[verifier::opaque]
spec fn bytes_p_6_57() -> bool {
    (((((bit_of(199u8, 0) == 1u8) && ((23u8 ^ 198u8) == 209u8)) && (((230u8 ^ 43u8) == 205u8) && ((1u8 ^ 151u8) == 150u8))) && ((((158u8 ^ 124u8) == 226u8) && ((89u8 ^ 48u8) == 105u8)) && (((241u8 ^ 114u8) == 131u8) && ((248u8 ^ 133u8) == 125u8)))) && (((((100u8 ^ 15u8) == 107u8) && ((46u8 ^ 206u8) == 224u8)) && (((62u8 ^ 96u8) == 94u8) && ((183u8 ^ 85u8) == 226u8))) && ((((59u8 ^ 172u8) == 151u8) && ((100u8 ^ 232u8) == 140u8)) && (((91u8 ^ 63u8) == 100u8) && (((47u8 ^ 161u8) == 142u8) && ((156u8 ^ 28u8) == 128u8))))))
}

#[verifier::opaque]
spec fn bytes_p_6_58() -> bool {
    (((((bit_of(199u8, 1) == 1u8) && ((209u8 ^ 140u8) == 93u8)) && (((205u8 ^ 87u8) == 154u8) && ((150u8 ^ 46u8) == 184u8))) && ((((226u8 ^ 249u8) == 27u8) && ((105u8 ^ 96u8) == 9u8)) && (((131u8 ^ 228u8) == 103u8) && ((125u8 ^ 10u8) == 119u8)))) && (((((107u8 ^ 31u8) == 116u8) && ((224u8 ^ 156u8) == 124u8)) && (((94u8 ^ 193u8) == 159u8) && ((226u8 ^ 170u8) == 72u8))) && ((((151u8 ^ 88u8) == 207u8) && ((140u8 ^ 209u8) == 93u8)) && (((100u8 ^ 127u8) == 27u8) && (((142u8 ^ 66u8) == 204u8) && ((128u8 ^ 57u8) == 185u8))))))
}

#[verifier::opaque]
spec fn bytes_p_6_59() -> bool {
    (((((bit_of(199u8, 2) == 1u8) && ((93u8 ^ 24u8) == 69u8)) && (((154u8 ^ 175u8) == 53u8) && ((184u8 ^ 92u8) == 228u8))) && ((((27u8 ^ 242u8) == 233u8) && ((9u8 ^ 193u8) == 200u8)) && (((103u8 ^ 200u8) == 175u8) && ((119u8 ^ 21u8) == 98u8)))) && (((((116u8 ^ 62u8) == 74u8) && ((124u8 ^ 56u8) == 68u8)) && (((159u8 ^ 131u8) == 28u8) && ((72u8 ^ 85u8) == 29u8))) && ((((207u8 ^ 177u8) == 126u8) && ((93u8 ^ 162u8) == 255u8)) && (((27u8 ^ 255u8) == 228u8) && (((204u8 ^ 132u8) == 72u8) && ((185u8 ^ 114u8) == 203u8))))))
}

#[verifier::opaque]
spec fn bytes_p_6_60() -> bool {
    (bit_of(199u8, 3) == 0u8)
}

#[verifier::opaque]
spec fn bytes_p_6_61() -> bool {
    (bit_of(199u8, 4) == 0u8)
}

#[verifier::opaque]
spec fn bytes_p_6_62() -> bool {
    (bit_of(199u8, 5) == 0u8)
}

#[verifier::opaque]
spec fn bytes_p_6_63() -> bool {
    (((((bit_of(199u8, 6) == 1u8) && ((69u8 ^ 21u8) == 80u8)) && (((53u8 ^ 242u8) == 199u8) && ((228u8 ^ 202u8) == 46u8))) && ((((233u8 ^ 37u8) == 204u8) && ((200u8 ^ 31u8) == 215u8)) && (((175u8 ^ 140u8) == 35u8) && ((98u8 ^ 92u8) == 62u8)))) && (((((74u8 ^ 225u8) == 171u8) && ((68u8 ^ 131u8) == 199u8)) && (((28u8 ^ 51u8) == 47u8) && ((29u8 ^ 88u8) == 69u8))) && ((((126u8 ^ 21u8) == 107u8) && ((255u8 ^ 43u8) == 212u8)) && (((228u8 ^ 250u8) == 30u8) && (((72u8 ^ 79u8) == 7u8) && ((203u8 ^ 40u8) == 227u8))))))
}

#[verifier::opaque]
spec fn bytes_p_6_64() -> bool {
    (((((bit_of(199u8, 7) == 1u8) && ((80u8 ^ 42u8) == 122u8)) && (((199u8 ^ 228u8) == 35u8) && ((46u8 ^ 149u8) == 187u8))) && ((((204u8 ^ 75u8) == 135u8) && ((215u8 ^ 62u8) == 233u8)) && (((35u8 ^ 24u8) == 59u8) && ((62u8 ^ 185u8) == 135u8)))) && (((((171u8 ^ 194u8) == 105u8) && ((199u8 ^ 7u8) == 192u8)) && (((47u8 ^ 103u8) == 72u8) && ((69u8 ^ 176u8) == 245u8))) && ((((107u8 ^ 42u8) == 65u8) && ((212u8 ^ 86u8) == 130u8)) && (((30u8 ^ 244u8) == 234u8) && (((7u8 ^ 159u8) == 152u8) && ((227u8 ^ 80u8) == 179u8))))))
}

#[verifier::opaque]
spec fn bytes_p_6_65() -> bool {
    (((((bit_of(117u8, 0) == 1u8) && ((122u8 ^ 84u8) == 46u8)) && (((35u8 ^ 200u8) == 235u8) && ((187u8 ^ 43u8) == 144u8))) && ((((135u8 ^ 151u8) == 16u8) && ((233u8 ^ 124u8) == 149u8)) && (((59u8 ^ 48u8) == 11u8) && ((135u8 ^ 114u8) == 245u8)))) && (((((105u8 ^ 133u8) == 236u8) && ((192u8 ^ 15u8) == 207u8)) && (((72u8 ^ 206u8) == 134u8) && ((245u8 ^ 96u8) == 149u8))) && ((((65u8 ^ 85u8) == 20u8) && ((130u8 ^ 172u8) == 46u8)) && (((234u8 ^ 232u8) == 2u8) && (((152u8 ^ 63u8) == 167u8) && ((179u8 ^ 161u8) == 18u8))))))
}

#[verifier::opaque]
spec fn bytes_p_6_66() -> bool {
    (bit_of(117u8, 1) == 0u8)
}

#[verifier::opaque]
spec fn bytes_p_6_67() -> bool {
    (((((bit_of(117u8, 2) == 1u8) && ((46u8 ^ 94u8) == 112u8)) && (((235u8 ^ 32u8) == 203u8) && ((144u8 ^ 175u8) == 63u8))) && ((((16u8 ^ 92u8) == 76u8) && ((149u8 ^ 242u8) == 103u8)) && (((11u8 ^ 193u8) == 202u8) && ((245u8 ^ 200u8) == 61u8)))) && (((((236u8 ^ 21u8) == 249u8) && ((207u8 ^ 62u8) == 241u8)) && (((134u8 ^ 56u8) == 190u8) && ((149u8 ^ 131u8) == 22u8))) && ((((20u8 ^ 85u8) == 65u8) && ((46u8 ^ 177u8) == 159u8)) && (((2u8 ^ 162u8) == 160u8) && (((167u8 ^ 255u8) == 88u8) && ((18u8 ^ 132u8) == 150u8))))))
}

#[verifier::opaque]
spec fn bytes_p_6_68() -> bool {
    (bit_of(117u8, 3) == 0u8)
}

#[verifier::opaque]
spec fn bytes_p_6_69() -> bool {
    (((((bit_of(117u8, 4) == 1u8) && ((112u8 ^ 118u8) == 6u8)) && (((203u8 ^ 128u8) == 75u8) && ((63u8 ^ 188u8) == 131u8))) && ((((76u8 ^ 114u8) == 62u8) && ((103u8 ^ 201u8) == 174u8)) && (((202u8 ^ 7u8) == 205u8) && ((61u8 ^ 35u8) == 30u8)))) && (((((249u8 ^ 87u8) == 174u8) && ((241u8 ^ 248u8) == 9u8)) && (((190u8 ^ 224u8) == 94u8) && ((22u8 ^ 12u8) == 26u8))) && ((((65u8 ^ 86u8) == 23u8) && ((159u8 ^ 197u8) == 90u8)) && (((160u8 ^ 138u8) == 42u8) && (((88u8 ^ 254u8) == 166u8) && ((150u8 ^ 19u8) == 133u8))))))
}

#[verifier::opaque]
spec fn bytes_p_6_70() -> bool {
    (((((bit_of(117u8, 5) == 1u8) && ((6u8 ^ 236u8) == 234u8)) && (((75u8 ^ 0u8) == 75u8) && ((131u8 ^ 121u8) == 250u8))) && ((((62u8 ^ 229u8) == 219u8) && ((174u8 ^ 146u8) == 60u8)) && (((205u8 ^ 15u8) == 194u8) && ((30u8 ^ 70u8) == 88u8)))) && (((((174u8 ^ 174u8) == 0u8) && ((9u8 ^ 240u8) == 249u8)) && (((94u8 ^ 193u8) == 159u8) && ((26u8 ^ 25u8) == 3u8))) && ((((23u8 ^ 172u8) == 187u8) && ((90u8 ^ 138u8) == 208u8)) && (((42u8 ^ 21u8) == 63u8) && (((166u8 ^ 253u8) == 91u8) && ((133u8 ^ 39u8) == 162u8))))))
}

#[verifier::opaque]
spec fn bytes_p_6_71() -> bool {
    (((((bit_of(117u8, 6) == 1u8) && ((234u8 ^ 216u8) == 50u8)) && (((75u8 ^ 1u8) == 74u8) && ((250u8 ^ 242u8) == 8u8))) && ((((219u8 ^ 202u8) == 17u8) && ((60u8 ^ 37u8) == 25u8)) && (((194u8 ^ 31u8) == 221u8) && ((88u8 ^ 140u8) == 212u8)))) && (((((0u8 ^ 92u8) == 92u8) && ((249u8 ^ 225u8) == 24u8)) && (((159u8 ^ 131u8) == 28u8) && ((3u8 ^ 51u8) == 48u8))) && ((((187u8 ^ 88u8) == 227u8) && ((208u8 ^ 21u8) == 197u8)) && (((63u8 ^ 43u8) == 20u8) && (((91u8 ^ 250u8) == 161u8) && ((162u8 ^ 79u8) == 237u8))))))
}

#[verifier::opaque]
spec fn bytes_p_6_72() -> bool {
    (bit_of(117u8, 7) == 0u8)
}

#[verifier::opaque]
spec fn bytes_p_6_73() -> bool {
    (((((bit_of(31u8, 0) == 1u8) && ((50u8 ^ 231u8) == 213u8)) && (((74u8 ^ 7u8) == 77u8) && ((8u8 ^ 200u8) == 192u8))) && ((((17u8 ^ 43u8) == 58u8) && ((25u8 ^ 151u8) == 142u8)) && (((221u8 ^ 124u8) == 161u8) && ((212u8 ^ 48u8) == 228u8)))) && (((((92u8 ^ 114u8) == 46u8) && ((24u8 ^ 133u8) == 157u8)) && (((28u8 ^ 15u8) == 19u8) && ((48u8 ^ 206u8) == 254u8))) && ((((227u8 ^ 96u8) == 131u8) && ((197u8 ^ 85u8) == 144u8)) && (((20u8 ^ 172u8) == 184u8) && (((161u8 ^ 232u8) == 73u8) && ((237u8 ^ 63u8) == 210u8))))))
}

#[verifier::opaque]
spec fn bytes_p_6_74() -> bool {
    (((((bit_of(31u8, 1) == 1u8) && ((213u8 ^ 206u8) == 27u8)) && (((77u8 ^ 15u8) == 66u8) && ((192u8 ^ 144u8) == 80u8))) && ((((58u8 ^ 87u8) == 109u8) && ((142u8 ^ 46u8) == 160u8)) && (((161u8 ^ 249u8) == 88u8) && ((228u8 ^ 96u8) == 132u8)))) && (((((46u8 ^ 228u8) == 202u8) && ((157u8 ^ 10u8) == 151u8)) && (((19u8 ^ 31u8) == 12u8) && ((254u8 ^ 156u8) == 98u8))) && ((((131u8 ^ 193u8) == 66u8) && ((144u8 ^ 170u8) == 58u8)) && (((184u8 ^ 88u8) == 224u8) && (((73u8 ^ 209u8) == 152u8) && ((210u8 ^ 127u8) == 173u8))))))
}

#[verifier::opaque]
spec fn bytes_p_6_75() -> bool {
    (((((bit_of(31u8, 2) == 1u8) && ((27u8 ^ 156u8) == 135u8)) && (((66u8 ^ 31u8) == 93u8) && ((80u8 ^ 32u8) == 112u8))) && ((((109u8 ^ 175u8) == 194u8) && ((160u8 ^ 92u8) == 252u8)) && (((88u8 ^ 242u8) == 170u8) && ((132u8 ^ 193u8) == 69u8)))) && (((((202u8 ^ 200u8) == 2u8) && ((151u8 ^ 21u8) == 130u8)) && (((12u8 ^ 62u8) == 50u8) && ((98u8 ^ 56u8) == 90u8))) && ((((66u8 ^ 131u8) == 193u8) && ((58u8 ^ 85u8) == 111u8)) && (((224u8 ^ 177u8) == 81u8) && (((152u8 ^ 162u8) == 58u8) && ((173u8 ^ 255u8) == 82u8))))))
}

#[verifier::opaque]
spec fn bytes_p_6_76() -> bool {
    (((((bit_of(31u8, 3) == 1u8) && ((135u8 ^ 191u8) == 56u8)) && (((93u8 ^ 63u8) == 98u8) && ((112u8 ^ 64u8) == 48u8))) && ((((194u8 ^ 94u8) == 156u8) && ((252u8 ^ 185u8) == 69u8)) && (((170u8 ^ 228u8) == 78u8) && ((69u8 ^ 131u8) == 198u8)))) && (((((2u8 ^ 145u8) == 147u8) && ((130u8 ^ 43u8) == 169u8)) && (((50u8 ^ 124u8) == 78u8) && ((90u8 ^ 112u8) == 42u8))) && ((((193u8 ^ 6u8) == 199u8) && ((111u8 ^ 171u8) == 196u8)) && (((81u8 ^ 98u8) == 51u8) && (((58u8 ^ 69u8) == 127u8) && ((82u8 ^ 255u8) == 173u8))))))
}

#[verifier::opaque]
spec fn bytes_p_6_77() -> bool {
    (((((bit_of(31u8, 4) == 1u8) && ((56u8 ^ 249u8) == 193u8)) && (((98u8 ^ 127u8) == 29u8) && ((48u8 ^ 128u8) == 176u8))) && ((((156u8 ^ 188u8) == 32u8) && ((69u8 ^ 114u8) == 55u8)) && (((78u8 ^ 201u8) == 135u8) && ((198u8 ^ 7u8) == 193u8)))) && (((((147u8 ^ 35u8) == 176u8) && ((169u8 ^ 87u8) == 254u8)) && (((78u8 ^ 248u8) == 182u8) && ((42u8 ^ 224u8) == 202u8))) && ((((199u8 ^ 12u8) == 203u8) && ((196u8 ^ 86u8) == 146u8)) && (((51u8 ^ 197u8) == 246u8) && (((127u8 ^ 138u8) == 245u8) && ((173u8 ^ 254u8) == 83u8))))))
}

#[verifier::opaque]
spec fn bytes_p_6_78() -> bool {
    (bit_of(31u8, 5) == 0u8)
}

#[verifier::opaque]
spec fn bytes_p_6_79() -> bool {
    (bit_of(31u8, 6) == 0u8)
}

#[verifier::opaque]
spec fn bytes_p_6_80() -> bool {
    (bit_of(31u8, 7) == 0u8)
}

#[verifier::opaque]
spec fn bytes_p_6_81() -> bool {
    (bit_of(12u8, 0) == 0u8)
}

#[verifier::opaque]
spec fn bytes_p_6_82() -> bool {
    (bit_of(12u8, 1) == 0u8)
}

#[verifier::opaque]
spec fn bytes_p_6_83() -> bool {
    (((((bit_of(12u8, 2) == 1u8) && ((193u8 ^ 125u8) == 188u8)) && (((29u8 ^ 225u8) == 252u8) && ((176u8 ^ 31u8) == 175u8))) && ((((32u8 ^ 32u8) == 0u8) && ((55u8 ^ 175u8) == 152u8)) && (((135u8 ^ 92u8) == 219u8) && ((193u8 ^ 242u8) == 51u8)))) && (((((176u8 ^ 193u8) == 113u8) && ((254u8 ^ 200u8) == 54u8)) && (((182u8 ^ 21u8) == 163u8) && ((202u8 ^ 62u8) == 244u8))) && ((((203u8 ^ 56u8) == 243u8) && ((146u8 ^ 131u8) == 17u8)) && (((246u8 ^ 85u8) == 163u8) && (((245u8 ^ 177u8) == 68u8) && ((83u8 ^ 162u8) == 241u8))))))
}

#[verifier::opaque]
spec fn bytes_p_6_84() -> bool {
    (((((bit_of(12u8, 3) == 1u8) && ((188u8 ^ 125u8) == 193u8)) && (((252u8 ^ 194u8) == 62u8) && ((175u8 ^ 63u8) == 144u8))) && ((((0u8 ^ 64u8) == 64u8) && ((152u8 ^ 94u8) == 198u8)) && (((219u8 ^ 185u8) == 98u8) && ((51u8 ^ 228u8) == 215u8)))) && (((((113u8 ^ 131u8) == 242u8) && ((54u8 ^ 145u8) == 167u8)) && (((163u8 ^ 43u8) == 136u8) && ((244u8 ^ 124u8) == 136u8))) && ((((243u8 ^ 112u8) == 131u8) && ((17u8 ^ 6u8) == 23u8)) && (((163u8 ^ 171u8) == 8u8) && (((68u8 ^ 98u8) == 38u8) && ((241u8 ^ 69u8) == 180u8))))))
}

#[verifier::opaque]
spec fn bytes_p_6_85() -> bool {
    (bit_of(12u8, 4) == 0u8)
}

#[verifier::opaque]
spec fn bytes_p_6_86() -> bool {
    (bit_of(12u8, 5) == 0u8)
}

#[verifier::opaque]
spec fn bytes_p_6_87() -> bool {
    (bit_of(12u8, 6) == 0u8)
}

#[verifier::opaque]
spec fn bytes_p_6_88() -> bool {
    (bit_of(12u8, 7) == 0u8)
}

#[verifier::opaque]
spec fn bytes_p_6_89() -> bool {
    (bit_of(108u8, 0) == 0u8)
}

#[verifier::opaque]
spec fn bytes_p_6_90() -> bool {
    (bit_of(108u8, 1) == 0u8)
}

#[verifier::opaque]
spec fn bytes_p_6_91() -> bool {
    (((((bit_of(108u8, 2) == 1u8) && ((193u8 ^ 110u8) == 175u8)) && (((62u8 ^ 47u8) == 17u8) && ((144u8 ^ 225u8) == 113u8))) && ((((64u8 ^ 31u8) == 95u8) && ((198u8 ^ 32u8) == 230u8)) && (((98u8 ^ 175u8) == 205u8) && ((215u8 ^ 92u8) == 139u8)))) && (((((242u8 ^ 242u8) == 0u8) && ((167u8 ^ 193u8) == 102u8)) && (((136u8 ^ 200u8) == 64u8) && ((136u8 ^ 21u8) == 157u8))) && ((((131u8 ^ 62u8) == 189u8) && ((23u8 ^ 56u8) == 47u8)) && (((8u8 ^ 131u8) == 139u8) && (((38u8 ^ 85u8) == 115u8) && ((180u8 ^ 177u8) == 5u8))))))
}

#[verifier::opaque]
spec fn bytes_p_6_92() -> bool {
    (((((bit_of(108u8, 3) == 1u8) && ((175u8 ^ 91u8) == 244u8)) && (((17u8 ^ 94u8) == 79u8) && ((113u8 ^ 194u8) == 179u8))) && ((((95u8 ^ 63u8) == 96u8) && ((230u8 ^ 64u8) == 166u8)) && (((205u8 ^ 94u8) == 147u8) && ((139u8 ^ 185u8) == 50u8)))) && (((((0u8 ^ 228u8) == 228u8) && ((102u8 ^ 131u8) == 229u8)) && (((64u8 ^ 145u8) == 209u8) && ((157u8 ^ 43u8) == 182u8))) && ((((189u8 ^ 124u8) == 193u8) && ((47u8 ^ 112u8) == 95u8)) && (((139u8 ^ 6u8) == 141u8) && (((115u8 ^ 171u8) == 216u8) && ((5u8 ^ 98u8) == 103u8))))))
}

#[verifier::opaque]
spec fn bytes_p_6_93() -> bool {
    (bit_of(108u8, 4) == 0u8)
}

#[verifier::opaque]
spec fn bytes_p_6_94() -> bool {
    (((((bit_of(108u8, 5) == 1u8) && ((244u8 ^ 235u8) == 31u8)) && (((79u8 ^ 121u8) == 54u8) && ((179u8 ^ 9u8) == 186u8))) && ((((96u8 ^ 255u8) == 159u8) && ((166u8 ^ 0u8) == 166u8)) && (((147u8 ^ 121u8) == 234u8) && ((50u8 ^ 229u8) == 215u8)))) && (((((228u8 ^ 146u8) == 118u8) && ((229u8 ^ 15u8) == 234u8)) && (((209u8 ^ 70u8) == 151u8) && ((182u8 ^ 174u8) == 24u8))) && ((((193u8 ^ 240u8) == 49u8) && ((95u8 ^ 193u8) == 158u8)) && (((141u8 ^ 25u8) == 148u8) && (((216u8 ^ 172u8) == 116u8) && ((103u8 ^ 138u8) == 237u8))))))
}

#[verifier::opaque]
spec fn bytes_p_6_95() -> bool {
    (((((bit_of(108u8, 6) == 1u8) && ((31u8 ^ 81u8) == 78u8)) && (((54u8 ^ 243u8) == 197u8) && ((186u8 ^ 18u8) == 168u8))) && ((((159u8 ^ 254u8) == 97u8) && ((166u8 ^ 1u8) == 167u8)) && (((234u8 ^ 242u8) == 24u8) && ((215u8 ^ 202u8) == 29u8)))) && (((((118u8 ^ 37u8) == 83u8) && ((234u8 ^ 31u8) == 245u8)) && (((151u8 ^ 140u8) == 27u8) && ((24u8 ^ 92u8) == 68u8))) && ((((49u8 ^ 225u8) == 208u8) && ((158u8 ^ 131u8) == 29u8)) && (((148u8 ^ 51u8) == 167u8) && (((116u8 ^ 88u8) == 44u8) && ((237u8 ^ 21u8) == 248u8))))))
}

#[verifier::opaque]
spec fn bytes_p_6_96() -> bool {
    (bit_of(108u8, 7) == 0u8)
}

#[verifier::opaque]
spec fn bytes_p_6_97() -> bool {
    (bit_of(104u8, 0) == 0u8)
}

#[verifier::opaque]
spec fn bytes_p_6_98() -> bool {
    (bit_of(104u8, 1) == 0u8)
}

#[verifier::opaque]
spec fn bytes_p_6_99() -> bool {
    (bit_of(104u8, 2) == 0u8)
}

#[verifier::opaque]
spec fn bytes_p_6_100() -> bool {
    (((((bit_of(104u8, 3) == 1u8) && ((78u8 ^ 46u8) == 96u8)) && (((197u8 ^ 107u8) == 174u8) && ((168u8 ^ 94u8) == 246u8))) && ((((97u8 ^ 194u8) == 163u8) && ((167u8 ^ 63u8) == 152u8)) && (((24u8 ^ 64u8) == 88u8) && ((29u8 ^ 94u8) == 67u8)))) && (((((83u8 ^ 185u8) == 234u8) && ((245u8 ^ 228u8) == 17u8)) && (((27u8 ^ 131u8) == 152u8) && ((68u8 ^ 145u8) == 213u8))) && ((((208u8 ^ 43u8) == 251u8) && ((29u8 ^ 124u8) == 97u8)) && (((167u8 ^ 112u8) == 215u8) && (((44u8 ^ 6u8) == 42u8) && ((248u8 ^ 171u8) == 83u8))))))
}

#[verifier::opaque]
spec fn bytes_p_6_101() -> bool {
    (bit_of(104u8, 4) == 0u8)
}

#[verifier::opaque]
spec fn bytes_p_6_102() -> bool {
    (((((bit_of(104u8, 5) == 1u8) && ((96u8 ^ 182u8) == 214u8)) && (((174u8 ^ 173u8) == 3u8) && ((246u8 ^ 121u8) == 143u8))) && ((((163u8 ^ 9u8) == 170u8) && ((152u8 ^ 255u8) == 103u8)) && (((88u8 ^ 0u8) == 88u8) && ((67u8 ^ 121u8) == 58u8)))) && (((((234u8 ^ 229u8) == 15u8) && ((17u8 ^ 146u8) == 131u8)) && (((152u8 ^ 15u8) == 151u8) && ((213u8 ^ 70u8) == 147u8))) && ((((251u8 ^ 174u8) == 85u8) && ((97u8 ^ 240u8) == 145u8)) && (((215u8 ^ 193u8) == 22u8) && (((42u8 ^ 25u8) == 51u8) && ((83u8 ^ 172u8) == 255u8))))))
}

#[verifier::opaque]
spec fn bytes_p_6_103() -> bool {
    (((((bit_of(104u8, 6) == 1u8) && ((214u8 ^ 235u8) == 61u8)) && (((3u8 ^ 91u8) == 88u8) && ((143u8 ^ 243u8) == 124u8))) && ((((170u8 ^ 18u8) == 184u8) && ((103u8 ^ 254u8) == 153u8)) && (((88u8 ^ 1u8) == 89u8) && ((58u8 ^ 242u8) == 200u8)))) && (((((15u8 ^ 202u8) == 197u8) && ((131u8 ^ 37u8) == 166u8)) && (((151u8 ^ 31u8) == 136u8) && ((147u8 ^ 140u8) == 31u8))) && ((((85u8 ^ 92u8) == 9u8) && ((145u8 ^ 225u8) == 112u8)) && (((22u8 ^ 131u8) == 149u8) && (((51u8 ^ 51u8) == 0u8) && ((255u8 ^ 88u8) == 167u8))))))
}

#[verifier::opaque]
spec fn bytes_p_6_104() -> bool {
    (bit_of(104u8, 7) == 0u8)
}

#[verifier::opaque]
spec fn bytes_p_6_105() -> bool {
    (((((bit_of(165u8, 0) == 1u8) && ((61u8 ^ 43u8) == 22u8)) && (((88u8 ^ 111u8) == 55u8) && ((124u8 ^ 205u8) == 177u8))) && ((((184u8 ^ 75u8) == 243u8) && ((153u8 ^ 248u8) == 97u8)) && (((89u8 ^ 7u8) == 94u8) && ((200u8 ^ 200u8) == 0u8)))) && (((((197u8 ^ 43u8) == 238u8) && ((166u8 ^ 151u8) == 49u8)) && (((136u8 ^ 124u8) == 244u8) && ((31u8 ^ 48u8) == 47u8))) && ((((9u8 ^ 114u8) == 123u8) && ((112u8 ^ 133u8) == 245u8)) && (((149u8 ^ 15u8) == 154u8) && (((0u8 ^ 206u8) == 206u8) && ((167u8 ^ 96u8) == 199u8))))))
}

#[verifier::opaque]
spec fn bytes_p_6_106() -> bool {
    (bit_of(165u8, 1) == 0u8)
}

#[verifier::opaque]
spec fn bytes_p_6_107() -> bool {
    (((((bit_of(165u8, 2) == 1u8) && ((22u8 ^ 43u8) == 61u8)) && (((55u8 ^ 188u8) == 139u8) && ((177u8 ^ 53u8) == 132u8))) && ((((243u8 ^ 47u8) == 220u8) && ((97u8 ^ 225u8) == 128u8)) && (((94u8 ^ 31u8) == 65u8) && ((0u8 ^ 32u8) == 32u8)))) && (((((238u8 ^ 175u8) == 65u8) && ((49u8 ^ 92u8) == 109u8)) && (((244u8 ^ 242u8) == 6u8) && ((47u8 ^ 193u8) == 238u8))) && ((((123u8 ^ 200u8) == 179u8) && ((245u8 ^ 21u8) == 224u8)) && (((154u8 ^ 62u8) == 164u8) && (((206u8 ^ 56u8) == 246u8) && ((199u8 ^ 131u8) == 68u8))))))
}

#[verifier::opaque]
spec fn bytes_p_6_108() -> bool {
    (bit_of(165u8, 3) == 0u8)
}

#[verifier::opaque]
spec fn bytes_p_6_109() -> bool {
    (bit_of(165u8, 4) == 0u8)
}

#[verifier::opaque]
spec fn bytes_p_6_110() -> bool {
    (((((bit_of(165u8, 5) == 1u8) && ((61u8 ^ 68u8) == 121u8)) && (((139u8 ^ 227u8) == 104u8) && ((132u8 ^ 173u8) == 41u8))) && ((((220u8 ^ 121u8) == 165u8) && ((128u8 ^ 9u8) == 137u8)) && (((65u8 ^ 255u8) == 190u8) && ((32u8 ^ 0u8) == 32u8)))) && (((((65u8 ^ 121u8) == 56u8) && ((109u8 ^ 229u8) == 136u8)) && (((6u8 ^ 146u8) == 148u8) && ((238u8 ^ 15u8) == 225u8))) && ((((179u8 ^ 70u8) == 245u8) && ((224u8 ^ 174u8) == 78u8)) && (((164u8 ^ 240u8) == 84u8) && (((246u8 ^ 193u8) == 55u8) && ((68u8 ^ 25u8) == 93u8))))))
}

#[verifier::opaque]
spec fn bytes_p_6_111() -> bool {
    (bit_of(165u8, 6) == 0u8)
}

#[verifier::opaque]
spec fn bytes_p_6_112() -> bool {
    (((((bit_of(165u8, 7) == 1u8) && ((121u8 ^ 16u8) == 105u8)) && (((104u8 ^ 141u8) == 229u8) && ((41u8 ^ 183u8) == 158u8))) && ((((165u8 ^ 230u8) == 67u8) && ((137u8 ^ 37u8) == 172u8)) && (((190u8 ^ 252u8) == 66u8) && ((32u8 ^ 3u8) == 35u8)))) && (((((56u8 ^ 228u8) == 220u8) && ((136u8 ^ 149u8) == 29u8)) && (((148u8 ^ 75u8) == 223u8) && ((225u8 ^ 62u8) == 223u8))) && ((((245u8 ^ 24u8) == 237u8) && ((78u8 ^ 185u8) == 247u8)) && (((84u8 ^ 194u8) == 150u8) && (((55u8 ^ 7u8) == 48u8) && ((93u8 ^ 103u8) == 58u8))))))
}

#[verifier::opaque]
spec fn bytes_p_6_113() -> bool {
    (((((bit_of(129u8, 0) == 1u8) && ((105u8 ^ 32u8) == 73u8)) && (((229u8 ^ 26u8) == 255u8) && ((158u8 ^ 111u8) == 241u8))) && ((((67u8 ^ 205u8) == 142u8) && ((172u8 ^ 75u8) == 231u8)) && (((66u8 ^ 248u8) == 186u8) && ((35u8 ^ 7u8) == 36u8)))) && (((((220u8 ^ 200u8) == 20u8) && ((29u8 ^ 43u8) == 54u8)) && (((223u8 ^ 151u8) == 72u8) && ((223u8 ^ 124u8) == 163u8))) && ((((237u8 ^ 48u8) == 221u8) && ((247u8 ^ 114u8) == 133u8)) && (((150u8 ^ 133u8) == 19u8) && (((48u8 ^ 15u8) == 63u8) && ((58u8 ^ 206u8) == 244u8))))))
}

#[verifier::opaque]
spec fn bytes_p_6_114() -> bool {
    (bit_of(129u8, 1) == 0u8)
}

#[verifier::opaque]
spec fn bytes_p_6_115() -> bool {
    (bit_of(129u8, 2) == 0u8)
}

#[verifier::opaque]
spec fn bytes_p_6_116() -> bool {
    (bit_of(129u8, 3) == 0u8)
}

#[verifier::opaque]
spec fn bytes_p_6_117() -> bool {
    (bit_of(129u8, 4) == 0u8)
}

#[verifier::opaque]
spec fn bytes_p_6_118() -> bool {
    (bit_of(129u8, 5) == 0u8)
}

#[verifier::opaque]
spec fn bytes_p_6_119() -> bool {
    (bit_of(129u8, 6) == 0u8)
}

#[verifier::opaque]
spec fn bytes_p_6_120() -> bool {
    (((((bit_of(129u8, 7) == 1u8) && ((73u8 ^ 181u8) == 252u8)) && (((255u8 ^ 34u8) == 221u8) && ((241u8 ^ 141u8) == 124u8))) && ((((142u8 ^ 183u8) == 57u8) && ((231u8 ^ 230u8) == 1u8)) && (((186u8 ^ 37u8) == 159u8) && ((36u8 ^ 252u8) == 216u8)))) && (((((20u8 ^ 3u8) == 23u8) && ((54u8 ^ 228u8) == 210u8)) && (((72u8 ^ 149u8) == 221u8) && ((163u8 ^ 75u8) == 232u8))) && ((((221u8 ^ 62u8) == 227u8) && ((133u8 ^ 24u8) == 157u8)) && (((19u8 ^ 185u8) == 170u8) && (((63u8 ^ 194u8) == 253u8) && ((244u8 ^ 7u8) == 243u8))))))
}

#[verifier::opaque]
spec fn bytes_p_6_121() -> bool {
    (bit_of(214u8, 0) == 0u8)
}

#[verifier::opaque]
spec fn bytes_p_6_122() -> bool {
    (((((bit_of(214u8, 1) == 1u8) && ((252u8 ^ 212u8) == 40u8)) && (((221u8 ^ 138u8) == 87u8) && ((124u8 ^ 52u8) == 72u8))) && ((((57u8 ^ 222u8) == 231u8) && ((1u8 ^ 154u8) == 155u8)) && (((159u8 ^ 151u8) == 8u8) && ((216u8 ^ 240u8) == 40u8)))) && (((((23u8 ^ 15u8) == 24u8) && ((210u8 ^ 144u8) == 66u8)) && (((221u8 ^ 87u8) == 138u8) && ((232u8 ^ 46u8) == 198u8))) && ((((227u8 ^ 249u8) == 26u8) && ((157u8 ^ 96u8) == 253u8)) && (((170u8 ^ 228u8) == 78u8) && (((253u8 ^ 10u8) == 247u8) && ((243u8 ^ 31u8) == 236u8))))))
}

#[verifier::opaque]
spec fn bytes_p_6_123() -> bool {
    (((((bit_of(214u8, 2) == 1u8) && ((40u8 ^ 168u8) == 128u8)) && (((87u8 ^ 21u8) == 66u8) && ((72u8 ^ 105u8) == 33u8))) && ((((231u8 ^ 188u8) == 91u8) && ((155u8 ^ 53u8) == 174u8)) && (((8u8 ^ 47u8) == 39u8) && ((40u8 ^ 225u8) == 201u8)))) && (((((24u8 ^ 31u8) == 7u8) && ((66u8 ^ 32u8) == 98u8)) && (((138u8 ^ 175u8) == 37u8) && ((198u8 ^ 92u8) == 154u8))) && ((((26u8 ^ 242u8) == 232u8) && ((253u8 ^ 193u8) == 60u8)) && (((78u8 ^ 200u8) == 134u8) && (((247u8 ^ 21u8) == 226u8) && ((236u8 ^ 62u8) == 210u8))))))
}

#[verifier::opaque]
spec fn bytes_p_6_124() -> bool {
    (bit_of(214u8, 3) == 0u8)
}

#[verifier::opaque]
spec fn bytes_p_6_125() -> bool {
    (((((bit_of(214u8, 4) == 1u8) && ((128u8 ^ 160u8) == 32u8)) && (((66u8 ^ 86u8) == 20u8) && ((33u8 ^ 164u8) == 133u8))) && ((((91u8 ^ 241u8) == 170u8) && ((174u8 ^ 214u8) == 120u8)) && (((39u8 ^ 188u8) == 155u8) && ((201u8 ^ 132u8) == 77u8)))) && (((((7u8 ^ 127u8) == 120u8) && ((98u8 ^ 128u8) == 226u8)) && (((37u8 ^ 188u8) == 153u8) && ((154u8 ^ 114u8) == 232u8))) && ((((232u8 ^ 201u8) == 33u8) && ((60u8 ^ 7u8) == 59u8)) && (((134u8 ^ 35u8) == 165u8) && (((226u8 ^ 87u8) == 181u8) && ((210u8 ^ 248u8) == 42u8))))))
}

#[verifier::opaque]
spec fn bytes_p_6_126() -> bool {
    (bit_of(214u8, 5) == 0u8)
}

#[verifier::opaque]
spec fn bytes_p_6_127() -> bool {
    (((((bit_of(214u8, 6) == 1u8) && ((32u8 ^ 9u8) == 41u8)) && (((20u8 ^ 91u8) == 79u8) && ((133u8 ^ 145u8) == 20u8))) && ((((170u8 ^ 198u8) == 108u8) && ((120u8 ^ 91u8) == 35u8)) && (((155u8 ^ 243u8) == 104u8) && ((77u8 ^ 18u8) == 95u8)))) && (((((120u8 ^ 254u8) == 134u8) && ((226u8 ^ 1u8) == 227u8)) && (((153u8 ^ 242u8) == 107u8) && ((232u8 ^ 202u8) == 34u8))) && ((((33u8 ^ 37u8) == 4u8) && ((59u8 ^ 31u8) == 36u8)) && (((165u8 ^ 140u8) == 41u8) && (((181u8 ^ 92u8) == 233u8) && ((42u8 ^ 225u8) == 203u8))))))
}

#[verifier::opaque]
spec fn bytes_p_6_128() -> bool {
    (((((bit_of(214u8, 7) == 1u8) && ((41u8 ^ 149u8) == 188u8)) && (((79u8 ^ 182u8) == 249u8) && ((20u8 ^ 34u8) == 54u8))) && ((((108u8 ^ 141u8) == 225u8) && ((35u8 ^ 183u8) == 148u8)) && (((104u8 ^ 230u8) == 142u8) && ((95u8 ^ 37u8) == 122u8)))) && (((((134u8 ^ 252u8) == 122u8) && ((227u8 ^ 3u8) == 224u8)) && (((107u8 ^ 228u8) == 143u8) && ((34u8 ^ 149u8) == 183u8))) && ((((4u8 ^ 75u8) == 79u8) && ((36u8 ^ 62u8) == 26u8)) && (((41u8 ^ 24u8) == 49u8) && (((233u8 ^ 185u8) == 80u8) && ((203u8 ^ 194u8) == 9u8))))))
}

#[verifier::opaque]
spec fn bytes_p_7_1() -> bool {
    (bit_of(188u8, 0) == 0u8)
}

#[verifier::opaque]
spec fn bytes_p_7_2() -> bool {
    (bit_of(188u8, 1) == 0u8)
}

#[verifier::opaque]
spec fn bytes_p_7_3() -> bool {
    (((((bit_of(188u8, 2) == 1u8) && ((0u8 ^ 52u8) == 52u8)) && (((0u8 ^ 56u8) == 56u8) && ((0u8 ^ 131u8) == 131u8))) && ((((0u8 ^ 85u8) == 85u8) && ((0u8 ^ 177u8) == 177u8)) && (((0u8 ^ 162u8) == 162u8) && ((0u8 ^ 255u8) == 255u8)))) && (((((0u8 ^ 132u8) == 132u8) && ((0u8 ^ 114u8) == 114u8)) && (((0u8 ^ 104u8) == 104u8) && ((0u8 ^ 94u8) == 94u8))) && ((((0u8 ^ 166u8) == 166u8) && ((0u8 ^ 86u8) == 86u8)) && (((0u8 ^ 21u8) == 21u8) && (((0u8 ^ 246u8) == 246u8) && ((0u8 ^ 20u8) == 20u8))))))
}

#[verifier::opaque]
spec fn bytes_p_7_4() -> bool {
    (((((bit_of(188u8, 3) == 1u8) && ((52u8 ^ 104u8) == 92u8)) && (((56u8 ^ 112u8) == 72u8) && ((131u8 ^ 6u8) == 133u8))) && ((((85u8 ^ 171u8) == 254u8) && ((177u8 ^ 98u8) == 211u8)) && (((162u8 ^ 69u8) == 231u8) && ((255u8 ^ 255u8) == 0u8)))) && (((((132u8 ^ 9u8) == 141u8) && ((114u8 ^ 229u8) == 151u8)) && (((104u8 ^ 208u8) == 184u8) && ((94u8 ^ 188u8) == 226u8))) && ((((166u8 ^ 76u8) == 234u8) && ((86u8 ^ 173u8) == 251u8)) && (((21u8 ^ 42u8) == 63u8) && (((246u8 ^ 236u8) == 26u8) && ((20u8 ^ 41u8) == 61u8))))))
}

#[verifier::opaque]
spec fn bytes_p_7_5() -> bool {
    (((((bit_of(188u8, 4) == 1u8) && ((92u8 ^ 208u8) == 140u8)) && (((72u8 ^ 224u8) == 168u8) && ((133u8 ^ 12u8) == 137u8))) && ((((254u8 ^ 86u8) == 168u8) && ((211u8 ^ 197u8) == 22u8)) && (((231u8 ^ 138u8) == 109u8) && ((0u8 ^ 254u8) == 254u8)))) && (((((141u8 ^ 19u8) == 158u8) && ((151u8 ^ 202u8) == 93u8)) && (((184u8 ^ 161u8) == 25u8) && ((226u8 ^ 121u8) == 155u8))) && ((((234u8 ^ 153u8) == 115u8) && ((251u8 ^ 90u8) == 161u8)) && (((63u8 ^ 85u8) == 106u8) && (((26u8 ^ 216u8) == 194u8) && ((61u8 ^ 83u8) == 110u8))))))
}

#[verifier::opaque]
spec fn bytes_p_7_6() -> bool {
    (((((bit_of(188u8, 5) == 1u8) && ((140u8 ^ 160u8) == 44u8)) && (((168u8 ^ 193u8) == 105u8) && ((137u8 ^ 25u8) == 144u8))) && ((((168u8 ^ 172u8) == 4u8) && ((22u8 ^ 138u8) == 156u8)) && (((109u8 ^ 21u8) == 120u8) && ((254u8 ^ 253u8) == 3u8)))) && (((((158u8 ^ 39u8) == 185u8) && ((93u8 ^ 148u8) == 201u8)) && (((25u8 ^ 67u8) == 90u8) && ((155u8 ^ 243u8) == 104u8))) && ((((115u8 ^ 50u8) == 65u8) && ((161u8 ^ 181u8) == 20u8)) && (((106u8 ^ 170u8) == 192u8) && (((194u8 ^ 176u8) == 114u8) && ((110u8 ^ 167u8) == 201u8))))))
}

#[verifier::opaque]
spec fn bytes_p_7_7() -> bool {
    (bit_of(188u8, 6) == 0u8)
}

#[verifier::opaque]
spec fn bytes_p_7_8() -> bool {
    (((((bit_of(188u8, 7) == 1u8) && ((44u8 ^ 142u8) == 162u8)) && (((105u8 ^ 7u8) == 110u8) && ((144u8 ^ 103u8) == 247u8))) && ((((4u8 ^ 176u8) == 180u8) && ((156u8 ^ 42u8) == 182u8)) && (((120u8 ^ 86u8) == 46u8) && ((3u8 ^ 244u8) == 247u8)))) && (((((185u8 ^ 159u8) == 38u8) && ((201u8 ^ 80u8) == 153u8)) && (((90u8 ^ 14u8) == 84u8) && ((104u8 ^ 205u8) == 165u8))) && ((((65u8 ^ 203u8) == 138u8) && ((20u8 ^ 212u8) == 192u8)) && (((192u8 ^ 170u8) == 106u8) && (((114u8 ^ 194u8) == 176u8) && ((201u8 ^ 158u8) == 87u8))))))
}

#[verifier::opaque]
spec fn bytes_p_7_9() -> bool {
    (((((bit_of(249u8, 0) == 1u8) && ((162u8 ^ 155u8) == 57u8)) && (((110u8 ^ 15u8) == 97u8) && ((247u8 ^ 206u8) == 57u8))) && ((((180u8 ^ 96u8) == 212u8) && ((182u8 ^ 85u8) == 227u8)) && (((46u8 ^ 172u8) == 130u8) && ((247u8 ^ 232u8) == 31u8)))) && (((((38u8 ^ 63u8) == 25u8) && ((153u8 ^ 161u8) == 56u8)) && (((84u8 ^ 28u8) == 72u8) && ((165u8 ^ 154u8) == 63u8))) && ((((138u8 ^ 151u8) == 29u8) && ((192u8 ^ 169u8) == 105u8)) && (((106u8 ^ 85u8) == 63u8) && (((176u8 ^ 133u8) == 53u8) && ((87u8 ^ 61u8) == 106u8))))))
}

#[verifier::opaque]
spec fn bytes_p_7_10() -> bool {
    (bit_of(249u8, 1) == 0u8)
}

#[verifier::opaque]
spec fn bytes_p_7_11() -> bool {
    (bit_of(249u8, 2) == 0u8)
}

#[verifier::opaque]
spec fn bytes_p_7_12() -> bool {
    (((((bit_of(249u8, 3) == 1u8) && ((57u8 ^ 95u8) == 102u8)) && (((97u8 ^ 124u8) == 29u8) && ((57u8 ^ 112u8) == 73u8))) && ((((212u8 ^ 6u8) == 210u8) && ((227u8 ^ 171u8) == 72u8)) && (((130u8 ^ 98u8) == 224u8) && ((31u8 ^ 69u8) == 90u8)))) && (((((25u8 ^ 255u8) == 230u8) && ((56u8 ^ 9u8) == 49u8)) && (((72u8 ^ 229u8) == 173u8) && ((63u8 ^ 208u8) == 239u8))) && ((((29u8 ^ 188u8) == 161u8) && ((105u8 ^ 76u8) == 37u8)) && (((63u8 ^ 173u8) == 146u8) && (((53u8 ^ 42u8) == 31u8) && ((106u8 ^ 236u8) == 134u8))))))
}

#[verifier::opaque]
spec fn bytes_p_7_13() -> bool {
    (((((bit_of(249u8, 4) == 1u8) && ((102u8 ^ 57u8) == 95u8)) && (((29u8 ^ 248u8) == 229u8) && ((73u8 ^ 224u8) == 169u8))) && ((((210u8 ^ 12u8) == 222u8) && ((72u8 ^ 86u8) == 30u8)) && (((224u8 ^ 197u8) == 37u8) && ((90u8 ^ 138u8) == 208u8)))) && (((((230u8 ^ 254u8) == 24u8) && ((49u8 ^ 19u8) == 34u8)) && (((173u8 ^ 202u8) == 103u8) && ((239u8 ^ 161u8) == 78u8))) && ((((161u8 ^ 121u8) == 216u8) && ((37u8 ^ 153u8) == 188u8)) && (((146u8 ^ 90u8) == 200u8) && (((31u8 ^ 85u8) == 74u8) && ((134u8 ^ 216u8) == 94u8))))))
}

#[verifier::opaque]
spec fn bytes_p_7_14() -> bool {
    (((((bit_of(249u8, 5) == 1u8) && ((95u8 ^ 245u8) == 170u8)) && (((229u8 ^ 240u8) == 21u8) && ((169u8 ^ 193u8) == 104u8))) && ((((222u8 ^ 25u8) == 199u8) && ((30u8 ^ 172u8) == 178u8)) && (((37u8 ^ 138u8) == 175u8) && ((208u8 ^ 21u8) == 197u8)))) && (((((24u8 ^ 253u8) == 229u8) && ((34u8 ^ 39u8) == 5u8)) && (((103u8 ^ 148u8) == 243u8) && ((78u8 ^ 67u8) == 13u8))) && ((((216u8 ^ 243u8) == 43u8) && ((188u8 ^ 50u8) == 142u8)) && (((200u8 ^ 181u8) == 125u8) && (((74u8 ^ 170u8) == 224u8) && ((94u8 ^ 176u8) == 238u8))))))
}

#[verifier::opaque]
spec fn bytes_p_7_15() -> bool {
    (((((bit_of(249u8, 6) == 1u8) && ((170u8 ^ 109u8) == 199u8)) && (((21u8 ^ 225u8) == 244u8) && ((104u8 ^ 131u8) == 235u8))) && ((((199u8 ^ 51u8) == 244u8) && ((178u8 ^ 88u8) == 234u8)) && (((175u8 ^ 21u8) == 186u8) && ((197u8 ^ 43u8) == 238u8)))) && (((((229u8 ^ 250u8) == 31u8) && ((5u8 ^ 79u8) == 74u8)) && (((243u8 ^ 40u8) == 219u8) && ((13u8 ^ 135u8) == 138u8))) && ((((43u8 ^ 230u8) == 205u8) && ((142u8 ^ 101u8) == 235u8)) && (((125u8 ^ 106u8) == 23u8) && (((224u8 ^ 85u8) == 181u8) && ((238u8 ^ 97u8) == 143u8))))))
}

#[verifier::opaque]
spec fn bytes_p_7_16() -> bool {
    (((((bit_of(249u8, 7) == 1u8) && ((199u8 ^ 218u8) == 29u8)) && (((244u8 ^ 194u8) == 54u8) && ((235u8 ^ 7u8) == 236u8))) && ((((244u8 ^ 103u8) == 147u8) && ((234u8 ^ 176u8) == 90u8)) && (((186u8 ^ 42u8) == 144u8) && ((238u8 ^ 86u8) == 184u8)))) && (((((31u8 ^ 244u8) == 235u8) && ((74u8 ^ 159u8) == 213u8)) && (((219u8 ^ 80u8) == 139u8) && ((138u8 ^ 14u8) == 132u8))) && ((((205u8 ^ 205u8) == 0u8) && ((235u8 ^ 203u8) == 32u8)) && (((23u8 ^ 212u8) == 195u8) && (((181u8 ^ 170u8) == 31u8) && ((143u8 ^ 194u8) == 77u8))))))
}

#[verifier::opaque]
spec fn bytes_p_7_17() -> bool {
    (bit_of(54u8, 0) == 0u8)
}

#[verifier::opaque]
spec fn bytes_p_7_18() -> bool {
    (((((bit_of(54u8, 1) == 1u8) && ((29u8 ^ 225u8) == 252u8)) && (((54u8 ^ 10u8) == 60u8) && ((236u8 ^ 31u8) == 243u8))) && ((((147u8 ^ 156u8) == 15u8) && ((90u8 ^ 193u8) == 155u8)) && (((144u8 ^ 170u8) == 58u8) && ((184u8 ^ 88u8) == 224u8)))) && (((((235u8 ^ 209u8) == 58u8) && ((213u8 ^ 127u8) == 170u8)) && (((139u8 ^ 66u8) == 201u8) && ((132u8 ^ 57u8) == 189u8))) && ((((0u8 ^ 52u8) == 52u8) && ((32u8 ^ 47u8) == 15u8)) && (((195u8 ^ 83u8) == 144u8) && (((31u8 ^ 171u8) == 180u8) && ((77u8 ^ 10u8) == 71u8))))))
}

#[verifier::opaque]
spec fn bytes_p_7_19() -> bool {
    (((((bit_of(54u8, 2) == 1u8) && ((252u8 ^ 194u8) == 62u8)) && (((60u8 ^ 21u8) == 41u8) && ((243u8 ^ 62u8) == 205u8))) && ((((15u8 ^ 56u8) == 55u8) && ((155u8 ^ 131u8) == 24u8)) && (((58u8 ^ 85u8) == 111u8) && ((224u8 ^ 177u8) == 81u8)))) && (((((58u8 ^ 162u8) == 152u8) && ((170u8 ^ 255u8) == 85u8)) && (((201u8 ^ 132u8) == 77u8) && ((189u8 ^ 114u8) == 207u8))) && ((((52u8 ^ 104u8) == 92u8) && ((15u8 ^ 94u8) == 81u8)) && (((144u8 ^ 166u8) == 54u8) && (((180u8 ^ 86u8) == 226u8) && ((71u8 ^ 21u8) == 82u8))))))
}

#[verifier::opaque]
spec fn bytes_p_7_20() -> bool {
    (bit_of(54u8, 3) == 0u8)
}

#[verifier::opaque]
spec fn bytes_p_7_21() -> bool {
    (((((bit_of(54u8, 4) == 1u8) && ((62u8 ^ 8u8) == 54u8)) && (((41u8 ^ 87u8) == 126u8) && ((205u8 ^ 248u8) == 53u8))) && ((((55u8 ^ 224u8) == 215u8) && ((24u8 ^ 12u8) == 20u8)) && (((111u8 ^ 86u8) == 57u8) && ((81u8 ^ 197u8) == 148u8)))) && (((((152u8 ^ 138u8) == 18u8) && ((85u8 ^ 254u8) == 171u8)) && (((77u8 ^ 19u8) == 94u8) && ((207u8 ^ 202u8) == 5u8))) && ((((92u8 ^ 161u8) == 253u8) && ((81u8 ^ 121u8) == 40u8)) && (((54u8 ^ 153u8) == 175u8) && (((226u8 ^ 90u8) == 184u8) && ((82u8 ^ 85u8) == 7u8))))))
}

#[verifier::opaque]
spec fn bytes_p_7_22() -> bool {
    (((((bit_of(54u8, 5) == 1u8) && ((54u8 ^ 16u8) == 38u8)) && (((126u8 ^ 174u8) == 208u8) && ((53u8 ^ 240u8) == 197u8))) && ((((215u8 ^ 193u8) == 22u8) && ((20u8 ^ 25u8) == 13u8)) && (((57u8 ^ 172u8) == 149u8) && ((148u8 ^ 138u8) == 30u8)))) && (((((18u8 ^ 21u8) == 7u8) && ((171u8 ^ 253u8) == 86u8)) && (((94u8 ^ 39u8) == 121u8) && ((5u8 ^ 148u8) == 145u8))) && ((((253u8 ^ 67u8) == 190u8) && ((40u8 ^ 243u8) == 219u8)) && (((175u8 ^ 50u8) == 157u8) && (((184u8 ^ 181u8) == 13u8) && ((7u8 ^ 170u8) == 173u8))))))
}

#[verifier::opaque]
spec fn bytes_p_7_23() -> bool {
    (bit_of(54u8, 6) == 0u8)
}

#[verifier::opaque]
spec fn bytes_p_7_24() -> bool {
    (bit_of(54u8, 7) == 0u8)
}

#[verifier::opaque]
spec fn bytes_p_7_25() -> bool {
    (((((bit_of(225u8, 0) == 1u8) && ((38u8 ^ 27u8) == 61u8)) && (((208u8 ^ 114u8) == 162u8) && ((197u8 ^ 133u8) == 64u8))) && ((((22u8 ^ 15u8) == 25u8) && ((13u8 ^ 206u8) == 195u8)) && (((149u8 ^ 96u8) == 245u8) && ((30u8 ^ 85u8) == 75u8)))) && (((((7u8 ^ 172u8) == 171u8) && ((86u8 ^ 232u8) == 190u8)) && (((121u8 ^ 63u8) == 70u8) && ((145u8 ^ 161u8) == 48u8))) && ((((190u8 ^ 28u8) == 162u8) && ((219u8 ^ 154u8) == 65u8)) && (((157u8 ^ 151u8) == 10u8) && (((13u8 ^ 169u8) == 164u8) && ((173u8 ^ 85u8) == 248u8))))))
}

#[verifier::opaque]
spec fn bytes_p_7_26() -> bool {
    (bit_of(225u8, 1) == 0u8)
}

#[verifier::opaque]
spec fn bytes_p_7_27() -> bool {
    (bit_of(225u8, 2) == 0u8)
}

#[verifier::opaque]
spec fn bytes_p_7_28() -> bool {
    (bit_of(225u8, 3) == 0u8)
}

#[verifier::opaque]
spec fn bytes_p_7_29() -> bool {
    (bit_of(225u8, 4) == 0u8)
}

#[verifier::opaque]
spec fn bytes_p_7_30() -> bool {
    (((((bit_of(225u8, 5) == 1u8) && ((61u8 ^ 86u8) == 107u8)) && (((162u8 ^ 70u8) == 228u8) && ((64u8 ^ 174u8) == 238u8))) && ((((25u8 ^ 240u8) == 233u8) && ((195u8 ^ 193u8) == 2u8)) && (((245u8 ^ 25u8) == 236u8) && ((75u8 ^ 172u8) == 231u8)))) && (((((171u8 ^ 138u8) == 33u8) && ((190u8 ^ 21u8) == 171u8)) && (((70u8 ^ 253u8) == 187u8) && ((48u8 ^ 39u8) == 23u8))) && ((((162u8 ^ 148u8) == 54u8) && ((65u8 ^ 67u8) == 2u8)) && (((10u8 ^ 243u8) == 249u8) && (((164u8 ^ 50u8) == 150u8) && ((248u8 ^ 181u8) == 77u8))))))
}

#[verifier::opaque]
spec fn bytes_p_7_31() -> bool {
    (((((bit_of(225u8, 6) == 1u8) && ((107u8 ^ 43u8) == 64u8)) && (((228u8 ^ 140u8) == 104u8) && ((238u8 ^ 92u8) == 178u8))) && ((((233u8 ^ 225u8) == 8u8) && ((2u8 ^ 131u8) == 129u8)) && (((236u8 ^ 51u8) == 223u8) && ((231u8 ^ 88u8) == 191u8)))) && (((((33u8 ^ 21u8) == 52u8) && ((171u8 ^ 43u8) == 128u8)) && (((187u8 ^ 250u8) == 65u8) && ((23u8 ^ 79u8) == 88u8))) && ((((54u8 ^ 40u8) == 30u8) && ((2u8 ^ 135u8) == 133u8)) && (((249u8 ^ 230u8) == 31u8) && (((150u8 ^ 101u8) == 243u8) && ((77u8 ^ 106u8) == 39u8))))))
}

#[verifier::opaque]
spec fn bytes_p_7_32() -> bool {
    (((((bit_of(225u8, 7) == 1u8) && ((64u8 ^ 86u8) == 22u8)) && (((104u8 ^ 24u8) == 112u8) && ((178u8 ^ 185u8) == 11u8))) && ((((8u8 ^ 194u8) == 202u8) && ((129u8 ^ 7u8) == 134u8)) && (((223u8 ^ 103u8) == 184u8) && ((191u8 ^ 176u8) == 15u8)))) && (((((52u8 ^ 42u8) == 30u8) && ((128u8 ^ 86u8) == 214u8)) && (((65u8 ^ 244u8) == 181u8) && ((88u8 ^ 159u8) == 199u8))) && ((((30u8 ^ 80u8) == 78u8) && ((133u8 ^ 14u8) == 139u8)) && (((31u8 ^ 205u8) == 210u8) && (((243u8 ^ 203u8) == 56u8) && ((39u8 ^ 212u8) == 243u8))))))
}

#[verifier::opaque]
spec fn bytes_p_7_33() -> bool {
    (bit_of(148u8, 0) == 0u8)
}

#[verifier::opaque]
spec fn bytes_p_7_34() -> bool {
    (bit_of(148u8, 1) == 0u8)
}

#[verifier::opaque]
spec fn bytes_p_7_35() -> bool {
    (((((bit_of(148u8, 2) == 1u8) && ((22u8 ^ 162u8) == 180u8)) && (((112u8 ^ 193u8) == 177u8) && ((11u8 ^ 200u8) == 195u8))) && ((((202u8 ^ 21u8) == 223u8) && ((134u8 ^ 62u8) == 184u8)) && (((184u8 ^ 56u8) == 128u8) && ((15u8 ^ 131u8) == 140u8)))) && (((((30u8 ^ 85u8) == 75u8) && ((214u8 ^ 177u8) == 103u8)) && (((181u8 ^ 162u8) == 23u8) && ((199u8 ^ 255u8) == 56u8))) && ((((78u8 ^ 132u8) == 202u8) && ((139u8 ^ 114u8) == 249u8)) && (((210u8 ^ 104u8) == 186u8) && (((56u8 ^ 94u8) == 102u8) && ((243u8 ^ 166u8) == 85u8))))))
}

#[verifier::opaque]
spec fn bytes_p_7_36() -> bool {
    (bit_of(148u8, 3) == 0u8)
}

#[verifier::opaque]
spec fn bytes_p_7_37() -> bool {
    (((((bit_of(148u8, 4) == 1u8) && ((180u8 ^ 134u8) == 50u8)) && (((177u8 ^ 7u8) == 182u8) && ((195u8 ^ 35u8) == 224u8))) && ((((223u8 ^ 87u8) == 136u8) && ((184u8 ^ 248u8) == 64u8)) && (((128u8 ^ 224u8) == 96u8) && ((140u8 ^ 12u8) == 128u8)))) && (((((75u8 ^ 86u8) == 29u8) && ((103u8 ^ 197u8) == 162u8)) && (((23u8 ^ 138u8) == 157u8) && ((56u8 ^ 254u8) == 198u8))) && ((((202u8 ^ 19u8) == 217u8) && ((249u8 ^ 202u8) == 51u8)) && (((186u8 ^ 161u8) == 27u8) && (((102u8 ^ 121u8) == 31u8) && ((85u8 ^ 153u8) == 204u8))))))
}

#[verifier::opaque]
spec fn bytes_p_7_38() -> bool {
    (bit_of(148u8, 5) == 0u8)
}

#[verifier::opaque]
spec fn bytes_p_7_39() -> bool {
    (bit_of(148u8, 6) == 0u8)
}

#[verifier::opaque]
spec fn bytes_p_7_40() -> bool {
    (((((bit_of(148u8, 7) == 1u8) && ((50u8 ^ 44u8) == 30u8)) && (((182u8 ^ 62u8) == 136u8) && ((224u8 ^ 24u8) == 248u8))) && ((((136u8 ^ 185u8) == 49u8) && ((64u8 ^ 194u8) == 130u8)) && (((96u8 ^ 7u8) == 103u8) && ((128u8 ^ 103u8) == 231u8)))) && (((((29u8 ^ 176u8) == 173u8) && ((162u8 ^ 42u8) == 136u8)) && (((157u8 ^ 86u8) == 203u8) && ((198u8 ^ 244u8) == 50u8))) && ((((217u8 ^ 159u8) == 70u8) && ((51u8 ^ 80u8) == 99u8)) && (((27u8 ^ 14u8) == 21u8) && (((31u8 ^ 205u8) == 210u8) && ((204u8 ^ 203u8) == 7u8))))))
}

#[verifier::opaque]
spec fn bytes_p_7_41() -> bool {
    (bit_of(142u8, 0) == 0u8)
}

#[verifier::opaque]
spec fn bytes_p_7_42() -> bool {
    (((((bit_of(142u8, 1) == 1u8) && ((30u8 ^ 57u8) == 39u8)) && (((136u8 ^ 249u8) == 113u8) && ((248u8 ^ 96u8) == 152u8))) && ((((49u8 ^ 228u8) == 213u8) && ((130u8 ^ 10u8) == 136u8)) && (((103u8 ^ 31u8) == 120u8) && ((231u8 ^ 156u8) == 123u8)))) && (((((173u8 ^ 193u8) == 108u8) && ((136u8 ^ 170u8) == 34u8)) && (((203u8 ^ 88u8) == 147u8) && ((50u8 ^ 209u8) == 227u8))) && ((((70u8 ^ 127u8) == 57u8) && ((99u8 ^ 66u8) == 33u8)) && (((21u8 ^ 57u8) == 44u8) && (((210u8 ^ 52u8) == 230u8) && ((7u8 ^ 47u8) == 40u8))))))
}

#[verifier::opaque]
spec fn bytes_p_7_43() -> bool {
    (((((bit_of(142u8, 2) == 1u8) && ((39u8 ^ 114u8) == 85u8)) && (((113u8 ^ 242u8) == 131u8) && ((152u8 ^ 193u8) == 89u8))) && ((((213u8 ^ 200u8) == 29u8) && ((136u8 ^ 21u8) == 157u8)) && (((120u8 ^ 62u8) == 70u8) && ((123u8 ^ 56u8) == 67u8)))) && (((((108u8 ^ 131u8) == 239u8) && ((34u8 ^ 85u8) == 119u8)) && (((147u8 ^ 177u8) == 34u8) && ((227u8 ^ 162u8) == 65u8))) && ((((57u8 ^ 255u8) == 198u8) && ((33u8 ^ 132u8) == 165u8)) && (((44u8 ^ 114u8) == 94u8) && (((230u8 ^ 104u8) == 142u8) && ((40u8 ^ 94u8) == 118u8))))))
}

#[verifier::opaque]
spec fn bytes_p_7_44() -> bool {
    (((((bit_of(142u8, 3) == 1u8) && ((85u8 ^ 228u8) == 177u8)) && (((131u8 ^ 228u8) == 103u8) && ((89u8 ^ 131u8) == 218u8))) && ((((29u8 ^ 145u8) == 140u8) && ((157u8 ^ 43u8) == 182u8)) && (((70u8 ^ 124u8) == 58u8) && ((67u8 ^ 112u8) == 51u8)))) && (((((239u8 ^ 6u8) == 233u8) && ((119u8 ^ 171u8) == 220u8)) && (((34u8 ^ 98u8) == 64u8) && ((65u8 ^ 69u8) == 4u8))) && ((((198u8 ^ 255u8) == 57u8) && ((165u8 ^ 9u8) == 172u8)) && (((94u8 ^ 229u8) == 187u8) && (((142u8 ^ 208u8) == 94u8) && ((118u8 ^ 188u8) == 202u8))))))
}

#[verifier::opaque]
spec fn bytes_p_7_45() -> bool {
    (bit_of(142u8, 4) == 0u8)
}

#[verifier::opaque]
spec fn bytes_p_7_46() -> bool {
    (bit_of(142u8, 5) == 0u8)
}

#[verifier::opaque]
spec fn bytes_p_7_47() -> bool {
    (bit_of(142u8, 6) == 0u8)
}

#[verifier::opaque]
spec fn bytes_p_7_48() -> bool {
    (((((bit_of(142u8, 7) == 1u8) && ((177u8 ^ 241u8) == 64u8)) && (((103u8 ^ 75u8) == 44u8) && ((218u8 ^ 62u8) == 228u8))) && ((((140u8 ^ 24u8) == 148u8) && ((182u8 ^ 185u8) == 15u8)) && (((58u8 ^ 194u8) == 248u8) && ((51u8 ^ 7u8) == 52u8)))) && (((((233u8 ^ 103u8) == 142u8) && ((220u8 ^ 176u8) == 108u8)) && (((64u8 ^ 42u8) == 106u8) && ((4u8 ^ 86u8) == 82u8))) && ((((57u8 ^ 244u8) == 205u8) && ((172u8 ^ 159u8) == 51u8)) && (((187u8 ^ 80u8) == 235u8) && (((94u8 ^ 14u8) == 80u8) && ((202u8 ^ 205u8) == 7u8))))))
}

#[verifier::opaque]
spec fn bytes_p_7_49() -> bool {
    (bit_of(122u8, 0) == 0u8)
}

#[verifier::opaque]
spec fn bytes_p_7_50() -> bool {
    (((((bit_of(122u8, 1) == 1u8) && ((64u8 ^ 77u8) == 13u8)) && (((44u8 ^ 46u8) == 2u8) && ((228u8 ^ 249u8) == 29u8))) && ((((148u8 ^ 96u8) == 244u8) && ((15u8 ^ 228u8) == 235u8)) && (((248u8 ^ 10u8) == 242u8) && ((52u8 ^ 31u8) == 43u8)))) && (((((142u8 ^ 156u8) == 18u8) && ((108u8 ^ 193u8) == 173u8)) && (((106u8 ^ 170u8) == 192u8) && ((82u8 ^ 88u8) == 10u8))) && ((((205u8 ^ 209u8) == 28u8) && ((51u8 ^ 127u8) == 76u8)) && (((235u8 ^ 66u8) == 169u8) && (((80u8 ^ 57u8) == 105u8) && ((7u8 ^ 52u8) == 51u8))))))
}

#[verifier::opaque]
spec fn bytes_p_7_51() -> bool {
    (bit_of(122u8, 2) == 0u8)
}

#[verifier::opaque]
spec fn bytes_p_7_52() -> bool {
    (((((bit_of(122u8, 3) == 1u8) && ((13u8 ^ 52u8) == 57u8)) && (((2u8 ^ 185u8) == 187u8) && ((29u8 ^ 228u8) == 249u8))) && ((((244u8 ^ 131u8) == 119u8) && ((235u8 ^ 145u8) == 122u8)) && (((242u8 ^ 43u8) == 217u8) && ((43u8 ^ 124u8) == 87u8)))) && (((((18u8 ^ 112u8) == 98u8) && ((173u8 ^ 6u8) == 171u8)) && (((192u8 ^ 171u8) == 107u8) && ((10u8 ^ 98u8) == 104u8))) && ((((28u8 ^ 69u8) == 89u8) && ((76u8 ^ 255u8) == 179u8)) && (((169u8 ^ 9u8) == 160u8) && (((105u8 ^ 229u8) == 140u8) && ((51u8 ^ 208u8) == 227u8))))))
}

#[verifier::opaque]
spec fn bytes_p_7_53() -> bool {
    (((((bit_of(122u8, 4) == 1u8) && ((57u8 ^ 239u8) == 214u8)) && (((187u8 ^ 114u8) == 201u8) && ((249u8 ^ 201u8) == 48u8))) && ((((119u8 ^ 7u8) == 112u8) && ((122u8 ^ 35u8) == 89u8)) && (((217u8 ^ 87u8) == 142u8) && ((87u8 ^ 248u8) == 175u8)))) && (((((98u8 ^ 224u8) == 130u8) && ((171u8 ^ 12u8) == 167u8)) && (((107u8 ^ 86u8) == 61u8) && ((104u8 ^ 197u8) == 173u8))) && ((((89u8 ^ 138u8) == 211u8) && ((179u8 ^ 254u8) == 77u8)) && (((160u8 ^ 19u8) == 179u8) && (((140u8 ^ 202u8) == 70u8) && ((227u8 ^ 161u8) == 66u8))))))
}

#[verifier::opaque]
spec fn bytes_p_7_54() -> bool {
    (((((bit_of(122u8, 5) == 1u8) && ((214u8 ^ 89u8) == 143u8)) && (((201u8 ^ 229u8) == 44u8) && ((48u8 ^ 146u8) == 162u8))) && ((((112u8 ^ 15u8) == 127u8) && ((89u8 ^ 70u8) == 31u8)) && (((142u8 ^ 174u8) == 32u8) && ((175u8 ^ 240u8) == 95u8)))) && (((((130u8 ^ 193u8) == 67u8) && ((167u8 ^ 25u8) == 190u8)) && (((61u8 ^ 172u8) == 145u8) && ((173u8 ^ 138u8) == 39u8))) && ((((211u8 ^ 21u8) == 198u8) && ((77u8 ^ 253u8) == 176u8)) && (((179u8 ^ 39u8) == 148u8) && (((70u8 ^ 148u8) == 210u8) && ((66u8 ^ 67u8) == 1u8))))))
}

#[verifier::opaque]
spec fn bytes_p_7_55() -> bool {
    (((((bit_of(122u8, 6) == 1u8) && ((143u8 ^ 178u8) == 61u8)) && (((44u8 ^ 202u8) == 230u8) && ((162u8 ^ 37u8) == 135u8))) && ((((127u8 ^ 31u8) == 96u8) && ((31u8 ^ 140u8) == 147u8)) && (((32u8 ^ 92u8) == 124u8) && ((95u8 ^ 225u8) == 190u8)))) && (((((67u8 ^ 131u8) == 192u8) && ((190u8 ^ 51u8) == 141u8)) && (((145u8 ^ 88u8) == 201u8) && ((39u8 ^ 21u8) == 50u8))) && ((((198u8 ^ 43u8) == 237u8) && ((176u8 ^ 250u8) == 74u8)) && (((148u8 ^ 79u8) == 219u8) && (((210u8 ^ 40u8) == 250u8) && ((1u8 ^ 135u8) == 134u8))))))
}

#[verifier::opaque]
spec fn bytes_p_7_56() -> bool {
    (bit_of(122u8, 7) == 0u8)
}

#[verifier::opaque]
spec fn bytes_p_7_57() -> bool {
    (bit_of(122u8, 0) == 0u8)
}

#[verifier::opaque]
spec fn bytes_p_7_58() -> bool {
    (((((bit_of(122u8, 1) == 1u8) && ((61u8 ^ 140u8) == 177u8)) && (((230u8 ^ 87u8) == 177u8) && ((135u8 ^ 46u8) == 169u8))) && ((((96u8 ^ 249u8) == 153u8) && ((147u8 ^ 96u8) == 243u8)) && (((124u8 ^ 228u8) == 152u8) && ((190u8 ^ 10u8) == 180u8)))) && (((((192u8 ^ 31u8) == 223u8) && ((141u8 ^ 156u8) == 17u8)) && (((201u8 ^ 193u8) == 8u8) && ((50u8 ^ 170u8) == 152u8))) && ((((237u8 ^ 88u8) == 181u8) && ((74u8 ^ 209u8) == 155u8)) && (((219u8 ^ 127u8) == 164u8) && (((250u8 ^ 66u8) == 184u8) && ((134u8 ^ 57u8) == 191u8))))))
}

#[verifier::opaque]
spec fn bytes_p_7_59() -> bool {
    (bit_of(122u8, 2) == 0u8)
}

#[verifier::opaque]
spec fn bytes_p_7_60() -> bool {
    (((((bit_of(122u8, 3) == 1u8) && ((177u8 ^ 48u8) == 129u8)) && (((177u8 ^ 94u8) == 239u8) && ((169u8 ^ 185u8) == 16u8))) && ((((153u8 ^ 228u8) == 125u8) && ((243u8 ^ 131u8) == 112u8)) && (((152u8 ^ 145u8) == 9u8) && ((180u8 ^ 43u8) == 159u8)))) && (((((223u8 ^ 124u8) == 163u8) && ((17u8 ^ 112u8) == 97u8)) && (((8u8 ^ 6u8) == 14u8) && ((152u8 ^ 171u8) == 51u8))) && ((((181u8 ^ 98u8) == 215u8) && ((155u8 ^ 69u8) == 222u8)) && (((164u8 ^ 255u8) == 91u8) && (((184u8 ^ 9u8) == 177u8) && ((191u8 ^ 229u8) == 90u8))))))
}

#[verifier::opaque]
spec fn bytes_p_7_61() -> bool {
    (((((bit_of(122u8, 4) == 1u8) && ((129u8 ^ 231u8) == 102u8)) && (((239u8 ^ 188u8) == 83u8) && ((16u8 ^ 114u8) == 98u8))) && ((((125u8 ^ 201u8) == 180u8) && ((112u8 ^ 7u8) == 119u8)) && (((9u8 ^ 35u8) == 42u8) && ((159u8 ^ 87u8) == 200u8)))) && (((((163u8 ^ 248u8) == 91u8) && ((97u8 ^ 224u8) == 129u8)) && (((14u8 ^ 12u8) == 2u8) && ((51u8 ^ 86u8) == 101u8))) && ((((215u8 ^ 197u8) == 18u8) && ((222u8 ^ 138u8) == 84u8)) && (((91u8 ^ 254u8) == 165u8) && (((177u8 ^ 19u8) == 162u8) && ((90u8 ^ 202u8) == 144u8))))))
}

#[verifier::opaque]
spec fn bytes_p_7_62() -> bool {
    (((((bit_of(122u8, 5) == 1u8) && ((102u8 ^ 73u8) == 47u8)) && (((83u8 ^ 121u8) == 42u8) && ((98u8 ^ 229u8) == 135u8))) && ((((180u8 ^ 146u8) == 38u8) && ((119u8 ^ 15u8) == 120u8)) && (((42u8 ^ 70u8) == 108u8) && ((200u8 ^ 174u8) == 102u8)))) && (((((91u8 ^ 240u8) == 171u8) && ((129u8 ^ 193u8) == 64u8)) && (((2u8 ^ 25u8) == 27u8) && ((101u8 ^ 172u8) == 201u8))) && ((((18u8 ^ 138u8) == 152u8) && ((84u8 ^ 21u8) == 65u8)) && (((165u8 ^ 253u8) == 88u8) && (((162u8 ^ 39u8) == 133u8) && ((144u8 ^ 148u8) == 4u8))))))
}

#[verifier::opaque]
spec fn bytes_p_7_63() -> bool {
    (((((bit_of(122u8, 6) == 1u8) && ((47u8 ^ 21u8) == 58u8)) && (((42u8 ^ 242u8) == 216u8) && ((135u8 ^ 202u8) == 77u8))) && ((((38u8 ^ 37u8) == 3u8) && ((120u8 ^ 31u8) == 103u8)) && (((108u8 ^ 140u8) == 224u8) && ((102u8 ^ 92u8) == 58u8)))) && (((((171u8 ^ 225u8) == 74u8) && ((64u8 ^ 131u8) == 195u8)) && (((27u8 ^ 51u8) == 40u8) && ((201u8 ^ 88u8) == 145u8))) && ((((152u8 ^ 21u8) == 141u8) && ((65u8 ^ 43u8) == 106u8)) && (((88u8 ^ 250u8) == 162u8) && (((133u8 ^ 79u8) == 202u8) && ((4u8 ^ 40u8) == 44u8))))))
}

#[verifier::opaque]
spec fn bytes_p_7_64() -> bool {
    (bit_of(122u8, 7) == 0u8)
}

#[verifier::opaque]
spec fn bytes_p_7_65() -> bool {
    (bit_of(224u8, 0) == 0u8)
}

#[verifier::opaque]
spec fn bytes_p_7_66() -> bool {
    (bit_of(224u8, 1) == 0u8)
}

#[verifier::opaque]
spec fn bytes_p_7_67() -> bool {
    (bit_of(224u8, 2) == 0u8)
}

#[verifier::opaque]
spec fn bytes_p_7_68() -> bool {
    (bit_of(224u8, 3) == 0u8)
}

#[verifier::opaque]
spec fn bytes_p_7_69() -> bool {
    (bit_of(224u8, 4) == 0u8)
}

#[verifier::opaque]
spec fn bytes_p_7_70() -> bool {
    (((((bit_of(224u8, 5) == 1u8) && ((58u8 ^ 236u8) == 214u8)) && (((216u8 ^ 0u8) == 216u8) && ((77u8 ^ 121u8) == 52u8))) && ((((3u8 ^ 229u8) == 230u8) && ((103u8 ^ 146u8) == 245u8)) && (((224u8 ^ 15u8) == 239u8) && ((58u8 ^ 70u8) == 124u8)))) && (((((74u8 ^ 174u8) == 228u8) && ((195u8 ^ 240u8) == 51u8)) && (((40u8 ^ 193u8) == 233u8) && ((145u8 ^ 25u8) == 136u8))) && ((((141u8 ^ 172u8) == 33u8) && ((106u8 ^ 138u8) == 224u8)) && (((162u8 ^ 21u8) == 183u8) && (((202u8 ^ 253u8) == 55u8) && ((44u8 ^ 39u8) == 11u8))))))
}

#[verifier::opaque]
spec fn bytes_p_7_71() -> bool {
    (((((bit_of(224u8, 6) == 1u8) && ((214u8 ^ 216u8) == 14u8)) && (((216u8 ^ 1u8) == 217u8) && ((52u8 ^ 242u8) == 198u8))) && ((((230u8 ^ 202u8) == 44u8) && ((245u8 ^ 37u8) == 208u8)) && (((239u8 ^ 31u8) == 240u8) && ((124u8 ^ 140u8) == 240u8)))) && (((((228u8 ^ 92u8) == 184u8) && ((51u8 ^ 225u8) == 210u8)) && (((233u8 ^ 131u8) == 106u8) && ((136u8 ^ 51u8) == 187u8))) && ((((33u8 ^ 88u8) == 121u8) && ((224u8 ^ 21u8) == 245u8)) && (((183u8 ^ 43u8) == 156u8) && (((55u8 ^ 250u8) == 205u8) && ((11u8 ^ 79u8) == 68u8))))))
}

#[verifier::opaque]
spec fn bytes_p_7_72() -> bool {
    (((((bit_of(224u8, 7) == 1u8) && ((14u8 ^ 176u8) == 190u8)) && (((217u8 ^ 3u8) == 218u8) && ((198u8 ^ 228u8) == 34u8))) && ((((44u8 ^ 149u8) == 185u8) && ((208u8 ^ 75u8) == 155u8)) && (((240u8 ^ 62u8) == 206u8) && ((240u8 ^ 24u8) == 232u8)))) && (((((184u8 ^ 185u8) == 1u8) && ((210u8 ^ 194u8) == 16u8)) && (((106u8 ^ 7u8) == 109u8) && ((187u8 ^ 103u8) == 220u8))) && ((((121u8 ^ 176u8) == 201u8) && ((245u8 ^ 42u8) == 223u8)) && (((156u8 ^ 86u8) == 202u8) && (((205u8 ^ 244u8) == 57u8) && ((68u8 ^ 159u8) == 219u8))))))
}

#[verifier::opaque]
spec fn bytes_p_7_73() -> bool {
    (((((bit_of(143u8, 0) == 1u8) && ((190u8 ^ 231u8) == 89u8)) && (((218u8 ^ 7u8) == 221u8) && ((34u8 ^ 200u8) == 234u8))) && ((((185u8 ^ 43u8) == 146u8) && ((155u8 ^ 151u8) == 12u8)) && (((206u8 ^ 124u8) == 178u8) && ((232u8 ^ 48u8) == 216u8)))) && (((((1u8 ^ 114u8) == 115u8) && ((16u8 ^ 133u8) == 149u8)) && (((109u8 ^ 15u8) == 98u8) && ((220u8 ^ 206u8) == 18u8))) && ((((201u8 ^ 96u8) == 169u8) && ((223u8 ^ 85u8) == 138u8)) && (((202u8 ^ 172u8) == 102u8) && (((57u8 ^ 232u8) == 209u8) && ((219u8 ^ 63u8) == 228u8))))))
}

#[verifier::opaque]
spec fn bytes_p_7_74() -> bool {
    (((((bit_of(143u8, 1) == 1u8) && ((89u8 ^ 206u8) == 151u8)) && (((221u8 ^ 15u8) == 210u8) && ((234u8 ^ 144u8) == 122u8))) && ((((146u8 ^ 87u8) == 197u8) && ((12u8 ^ 46u8) == 34u8)) && (((178u8 ^ 249u8) == 75u8) && ((216u8 ^ 96u8) == 184u8)))) && (((((115u8 ^ 228u8) == 151u8) && ((149u8 ^ 10u8) == 159u8)) && (((98u8 ^ 31u8) == 125u8) && ((18u8 ^ 156u8) == 142u8))) && ((((169u8 ^ 193u8) == 104u8) && ((138u8 ^ 170u8) == 32u8)) && (((102u8 ^ 88u8) == 62u8) && (((209u8 ^ 209u8) == 0u8) && ((228u8 ^ 127u8) == 155u8))))))
}

#[verifier::opaque]
spec fn bytes_p_7_75() -> bool {
    (((((bit_of(143u8, 2) == 1u8) && ((151u8 ^ 156u8) == 11u8)) && (((210u8 ^ 31u8) == 205u8) && ((122u8 ^ 32u8) == 90u8))) && ((((197u8 ^ 175u8) == 106u8) && ((34u8 ^ 92u8) == 126u8)) && (((75u8 ^ 242u8) == 185u8) && ((184u8 ^ 193u8) == 121u8)))) && (((((151u8 ^ 200u8) == 95u8) && ((159u8 ^ 21u8) == 138u8)) && (((125u8 ^ 62u8) == 67u8) && ((142u8 ^ 56u8) == 182u8))) && ((((104u8 ^ 131u8) == 235u8) && ((32u8 ^ 85u8) == 117u8)) && (((62u8 ^ 177u8) == 143u8) && (((0u8 ^ 162u8) == 162u8) && ((155u8 ^ 255u8) == 100u8))))))
}

#[verifier::opaque]
spec fn bytes_p_7_76() -> bool {
    (((((bit_of(143u8, 3) == 1u8) && ((11u8 ^ 191u8) == 180u8)) && (((205u8 ^ 63u8) == 242u8) && ((90u8 ^ 64u8) == 26u8))) && ((((106u8 ^ 94u8) == 52u8) && ((126u8 ^ 185u8) == 199u8)) && (((185u8 ^ 228u8) == 93u8) && ((121u8 ^ 131u8) == 250u8)))) && (((((95u8 ^ 145u8) == 206u8) && ((138u8 ^ 43u8) == 161u8)) && (((67u8 ^ 124u8) == 63u8) && ((182u8 ^ 112u8) == 198u8))) && ((((235u8 ^ 6u8) == 237u8) && ((117u8 ^ 171u8) == 222u8)) && (((143u8 ^ 98u8) == 237u8) && (((162u8 ^ 69u8) == 231u8) && ((100u8 ^ 255u8) == 155u8))))))
}

#[verifier::opaque]
spec fn bytes_p_7_77() -> bool {
    (bit_of(143u8, 4) == 0u8)
}

#[verifier::opaque]
spec fn bytes_p_7_78() -> bool {
    (bit_of(143u8, 5) == 0u8)
}

#[verifier::opaque]
spec fn bytes_p_7_79() -> bool {
    (bit_of(143u8, 6) == 0u8)
}

#[verifier::opaque]
spec fn bytes_p_7_80() -> bool {
    (((((bit_of(143u8, 7) == 1u8) && ((180u8 ^ 93u8) == 233u8)) && (((242u8 ^ 252u8) == 14u8) && ((26u8 ^ 3u8) == 25u8))) && ((((52u8 ^ 228u8) == 208u8) && ((199u8 ^ 149u8) == 82u8)) && (((93u8 ^ 75u8) == 22u8) && ((250u8 ^ 62u8) == 196u8)))) && (((((206u8 ^ 24u8) == 214u8) && ((161u8 ^ 185u8) == 24u8)) && (((63u8 ^ 194u8) == 253u8) && ((198u8 ^ 7u8) == 193u8))) && ((((237u8 ^ 103u8) == 138u8) && ((222u8 ^ 176u8) == 110u8)) && (((237u8 ^ 42u8) == 199u8) && (((231u8 ^ 86u8) == 177u8) && ((155u8 ^ 244u8) == 111u8))))))
}

#[verifier::opaque]
spec fn bytes_p_7_81() -> bool {
    (((((bit_of(183u8, 0) == 1u8) && ((233u8 ^ 61u8) == 212u8)) && (((14u8 ^ 248u8) == 246u8) && ((25u8 ^ 7u8) == 30u8))) && ((((208u8 ^ 200u8) == 24u8) && ((82u8 ^ 43u8) == 121u8)) && (((22u8 ^ 151u8) == 129u8) && ((196u8 ^ 124u8) == 184u8)))) && (((((214u8 ^ 48u8) == 230u8) && ((24u8 ^ 114u8) == 106u8)) && (((253u8 ^ 133u8) == 120u8) && ((193u8 ^ 15u8) == 206u8))) && ((((138u8 ^ 206u8) == 68u8) && ((110u8 ^ 96u8) == 14u8)) && (((199u8 ^ 85u8) == 146u8) && (((177u8 ^ 172u8) == 29u8) && ((111u8 ^ 232u8) == 135u8))))))
}

#[verifier::opaque]
spec fn bytes_p_7_82() -> bool {
    (((((bit_of(183u8, 1) == 1u8) && ((212u8 ^ 253u8) == 41u8)) && (((246u8 ^ 240u8) == 6u8) && ((30u8 ^ 15u8) == 17u8))) && ((((24u8 ^ 144u8) == 136u8) && ((121u8 ^ 87u8) == 46u8)) && (((129u8 ^ 46u8) == 175u8) && ((184u8 ^ 249u8) == 65u8)))) && (((((230u8 ^ 96u8) == 134u8) && ((106u8 ^ 228u8) == 142u8)) && (((120u8 ^ 10u8) == 114u8) && ((206u8 ^ 31u8) == 209u8))) && ((((68u8 ^ 156u8) == 216u8) && ((14u8 ^ 193u8) == 207u8)) && (((146u8 ^ 170u8) == 56u8) && (((29u8 ^ 88u8) == 69u8) && ((135u8 ^ 209u8) == 86u8))))))
}

#[verifier::opaque]
spec fn bytes_p_7_83() -> bool {
    (((((bit_of(183u8, 2) == 1u8) && ((41u8 ^ 125u8) == 84u8)) && (((6u8 ^ 225u8) == 231u8) && ((17u8 ^ 31u8) == 14u8))) && ((((136u8 ^ 32u8) == 168u8) && ((46u8 ^ 175u8) == 129u8)) && (((175u8 ^ 92u8) == 243u8) && ((65u8 ^ 242u8) == 179u8)))) && (((((134u8 ^ 193u8) == 71u8) && ((142u8 ^ 200u8) == 70u8)) && (((114u8 ^ 21u8) == 103u8) && ((209u8 ^ 62u8) == 239u8))) && ((((216u8 ^ 56u8) == 224u8) && ((207u8 ^ 131u8) == 76u8)) && (((56u8 ^ 85u8) == 109u8) && (((69u8 ^ 177u8) == 244u8) && ((86u8 ^ 162u8) == 244u8))))))
}

#[verifier::opaque]
spec fn bytes_p_7_84() -> bool {
    (bit_of(183u8, 3) == 0u8)
}

#[verifier::opaque]
spec fn bytes_p_7_85() -> bool {
    (((((bit_of(183u8, 4) == 1u8) && ((84u8 ^ 250u8) == 174u8)) && (((231u8 ^ 132u8) == 99u8) && ((14u8 ^ 127u8) == 113u8))) && ((((168u8 ^ 128u8) == 40u8) && ((129u8 ^ 188u8) == 61u8)) && (((243u8 ^ 114u8) == 129u8) && ((179u8 ^ 201u8) == 122u8)))) && (((((71u8 ^ 7u8) == 64u8) && ((70u8 ^ 35u8) == 101u8)) && (((103u8 ^ 87u8) == 48u8) && ((239u8 ^ 248u8) == 23u8))) && ((((224u8 ^ 224u8) == 0u8) && ((76u8 ^ 12u8) == 64u8)) && (((109u8 ^ 86u8) == 59u8) && (((244u8 ^ 197u8) == 49u8) && ((244u8 ^ 138u8) == 126u8))))))
}

#[verifier::opaque]
spec fn bytes_p_7_86() -> bool {
    (((((bit_of(183u8, 5) == 1u8) && ((174u8 ^ 115u8) == 221u8)) && (((99u8 ^ 9u8) == 106u8) && ((113u8 ^ 255u8) == 142u8))) && ((((40u8 ^ 0u8) == 40u8) && ((61u8 ^ 121u8) == 68u8)) && (((129u8 ^ 229u8) == 100u8) && ((122u8 ^ 146u8) == 232u8)))) && (((((64u8 ^ 15u8) == 79u8) && ((101u8 ^ 70u8) == 35u8)) && (((48u8 ^ 174u8) == 158u8) && ((23u8 ^ 240u8) == 231u8))) && ((((0u8 ^ 193u8) == 193u8) && ((64u8 ^ 25u8) == 89u8)) && (((59u8 ^ 172u8) == 151u8) && (((49u8 ^ 138u8) == 187u8) && ((126u8 ^ 21u8) == 107u8))))))
}

#[verifier::opaque]
spec fn bytes_p_7_87() -> bool {
    (bit_of(183u8, 6) == 0u8)
}

#[verifier::opaque]
spec fn bytes_p_7_88() -> bool {
    (((((bit_of(183u8, 7) == 1u8) && ((221u8 ^ 204u8) == 17u8)) && (((106u8 ^ 37u8) == 79u8) && ((142u8 ^ 252u8) == 114u8))) && ((((40u8 ^ 3u8) == 43u8) && ((68u8 ^ 228u8) == 160u8)) && (((100u8 ^ 149u8) == 241u8) && ((232u8 ^ 75u8) == 163u8)))) && (((((79u8 ^ 62u8) == 113u8) && ((35u8 ^ 24u8) == 59u8)) && (((158u8 ^ 185u8) == 39u8) && ((231u8 ^ 194u8) == 37u8))) && ((((193u8 ^ 7u8) == 198u8) && ((89u8 ^ 103u8) == 62u8)) && (((151u8 ^ 176u8) == 39u8) && (((187u8 ^ 42u8) == 145u8) && ((107u8 ^ 86u8) == 61u8))))))
}

#[verifier::opaque]
spec fn bytes_p_7_89() -> bool {
    (((((bit_of(79u8, 0) == 1u8) && ((17u8 ^ 152u8) == 137u8)) && (((79u8 ^ 75u8) == 4u8) && ((114u8 ^ 248u8) == 138u8))) && ((((43u8 ^ 7u8) == 44u8) && ((160u8 ^ 200u8) == 104u8)) && (((241u8 ^ 43u8) == 218u8) && ((163u8 ^ 151u8) == 52u8)))) && (((((113u8 ^ 124u8) == 13u8) && ((59u8 ^ 48u8) == 11u8)) && (((39u8 ^ 114u8) == 85u8) && ((37u8 ^ 133u8) == 160u8))) && ((((198u8 ^ 15u8) == 201u8) && ((62u8 ^ 206u8) == 240u8)) && (((39u8 ^ 96u8) == 71u8) && (((145u8 ^ 85u8) == 196u8) && ((61u8 ^ 172u8) == 145u8))))))
}

#[verifier::opaque]
spec fn bytes_p_7_90() -> bool {
    (((((bit_of(79u8, 1) == 1u8) && ((137u8 ^ 183u8) == 62u8)) && (((4u8 ^ 151u8) == 147u8) && ((138u8 ^ 240u8) == 122u8))) && ((((44u8 ^ 15u8) == 35u8) && ((104u8 ^ 144u8) == 248u8)) && (((218u8 ^ 87u8) == 141u8) && ((52u8 ^ 46u8) == 26u8)))) && (((((13u8 ^ 249u8) == 244u8) && ((11u8 ^ 96u8) == 107u8)) && (((85u8 ^ 228u8) == 177u8) && ((160u8 ^ 10u8) == 170u8))) && ((((201u8 ^ 31u8) == 214u8) && ((240u8 ^ 156u8) == 108u8)) && (((71u8 ^ 193u8) == 134u8) && (((196u8 ^ 170u8) == 110u8) && ((145u8 ^ 88u8) == 201u8))))))
}

#[verifier::opaque]
spec fn bytes_p_7_91() -> bool {
    (((((bit_of(79u8, 2) == 1u8) && ((62u8 ^ 110u8) == 80u8)) && (((147u8 ^ 47u8) == 188u8) && ((122u8 ^ 225u8) == 155u8))) && ((((35u8 ^ 31u8) == 60u8) && ((248u8 ^ 32u8) == 216u8)) && (((141u8 ^ 175u8) == 34u8) && ((26u8 ^ 92u8) == 70u8)))) && (((((244u8 ^ 242u8) == 6u8) && ((107u8 ^ 193u8) == 170u8)) && (((177u8 ^ 200u8) == 121u8) && ((170u8 ^ 21u8) == 191u8))) && ((((214u8 ^ 62u8) == 232u8) && ((108u8 ^ 56u8) == 84u8)) && (((134u8 ^ 131u8) == 5u8) && (((110u8 ^ 85u8) == 59u8) && ((201u8 ^ 177u8) == 120u8))))))
}

#[verifier::opaque]
spec fn bytes_p_7_92() -> bool {
    (((((bit_of(79u8, 3) == 1u8) && ((80u8 ^ 91u8) == 11u8)) && (((188u8 ^ 94u8) == 226u8) && ((155u8 ^ 194u8) == 89u8))) && ((((60u8 ^ 63u8) == 3u8) && ((216u8 ^ 64u8) == 152u8)) && (((34u8 ^ 94u8) == 124u8) && ((70u8 ^ 185u8) == 255u8)))) && (((((6u8 ^ 228u8) == 226u8) && ((170u8 ^ 131u8) == 41u8)) && (((121u8 ^ 145u8) == 232u8) && ((191u8 ^ 43u8) == 148u8))) && ((((232u8 ^ 124u8) == 148u8) && ((84u8 ^ 112u8) == 36u8)) && (((5u8 ^ 6u8) == 3u8) && (((59u8 ^ 171u8) == 144u8) && ((120u8 ^ 98u8) == 26u8))))))
}

#[verifier::opaque]
spec fn bytes_p_7_93() -> bool {
    (bit_of(79u8, 4) == 0u8)
}

#[verifier::opaque]
spec fn bytes_p_7_94() -> bool {
    (bit_of(79u8, 5) == 0u8)
}

#[verifier::opaque]
spec fn bytes_p_7_95() -> bool {
    (((((bit_of(79u8, 6) == 1u8) && ((11u8 ^ 81u8) == 90u8)) && (((226u8 ^ 243u8) == 17u8) && ((89u8 ^ 18u8) == 75u8))) && ((((3u8 ^ 254u8) == 253u8) && ((152u8 ^ 1u8) == 153u8)) && (((124u8 ^ 242u8) == 142u8) && ((255u8 ^ 202u8) == 53u8)))) && (((((226u8 ^ 37u8) == 199u8) && ((41u8 ^ 31u8) == 54u8)) && (((232u8 ^ 140u8) == 100u8) && ((148u8 ^ 92u8) == 200u8))) && ((((148u8 ^ 225u8) == 117u8) && ((36u8 ^ 131u8) == 167u8)) && (((3u8 ^ 51u8) == 48u8) && (((144u8 ^ 88u8) == 200u8) && ((26u8 ^ 21u8) == 15u8))))))
}

#[verifier::opaque]
spec fn bytes_p_7_96() -> bool {
    (bit_of(79u8, 7) == 0u8)
}

#[verifier::opaque]
spec fn bytes_p_7_97() -> bool {
    (bit_of(26u8, 0) == 0u8)
}

#[verifier::opaque]
spec fn bytes_p_7_98() -> bool {
    (((((bit_of(26u8, 1) == 1u8) && ((90u8 ^ 136u8) == 210u8)) && (((17u8 ^ 154u8) == 139u8) && ((75u8 ^ 151u8) == 220u8))) && ((((253u8 ^ 240u8) == 13u8) && ((153u8 ^ 15u8) == 150u8)) && (((142u8 ^ 144u8) == 30u8) && ((53u8 ^ 87u8) == 98u8)))) && (((((199u8 ^ 46u8) == 233u8) && ((54u8 ^ 249u8) == 207u8)) && (((100u8 ^ 96u8) == 4u8) && ((200u8 ^ 228u8) == 44u8))) && ((((117u8 ^ 10u8) == 127u8) && ((167u8 ^ 31u8) == 184u8)) && (((48u8 ^ 156u8) == 172u8) && (((200u8 ^ 193u8) == 9u8) && ((15u8 ^ 170u8) == 165u8))))))
}

#[verifier::opaque]
spec fn bytes_p_7_99() -> bool {
    (bit_of(26u8, 2) == 0u8)
}

#[verifier::opaque]
spec fn bytes_p_7_100() -> bool {
    (((((bit_of(26u8, 3) == 1u8) && ((210u8 ^ 46u8) == 252u8)) && (((139u8 ^ 107u8) == 224u8) && ((220u8 ^ 94u8) == 130u8))) && ((((13u8 ^ 194u8) == 207u8) && ((150u8 ^ 63u8) == 169u8)) && (((30u8 ^ 64u8) == 94u8) && ((98u8 ^ 94u8) == 60u8)))) && (((((233u8 ^ 185u8) == 80u8) && ((207u8 ^ 228u8) == 43u8)) && (((4u8 ^ 131u8) == 135u8) && ((44u8 ^ 145u8) == 189u8))) && ((((127u8 ^ 43u8) == 84u8) && ((184u8 ^ 124u8) == 196u8)) && (((172u8 ^ 112u8) == 220u8) && (((9u8 ^ 6u8) == 15u8) && ((165u8 ^ 171u8) == 14u8))))))
}

#[verifier::opaque]
spec fn bytes_p_7_101() -> bool {
    (((((bit_of(26u8, 4) == 1u8) && ((252u8 ^ 219u8) == 39u8)) && (((224u8 ^ 214u8) == 54u8) && ((130u8 ^ 188u8) == 62u8))) && ((((207u8 ^ 132u8) == 75u8) && ((169u8 ^ 127u8) == 214u8)) && (((94u8 ^ 128u8) == 222u8) && ((60u8 ^ 188u8) == 128u8)))) && (((((80u8 ^ 114u8) == 34u8) && ((43u8 ^ 201u8) == 226u8)) && (((135u8 ^ 7u8) == 128u8) && ((189u8 ^ 35u8) == 158u8))) && ((((84u8 ^ 87u8) == 3u8) && ((196u8 ^ 248u8) == 60u8)) && (((220u8 ^ 224u8) == 60u8) && (((15u8 ^ 12u8) == 3u8) && ((14u8 ^ 86u8) == 88u8))))))
}

#[verifier::opaque]
spec fn bytes_p_7_102() -> bool {
    (bit_of(26u8, 5) == 0u8)
}

#[verifier::opaque]
spec fn bytes_p_7_103() -> bool {
    (bit_of(26u8, 6) == 0u8)
}

#[verifier::opaque]
spec fn bytes_p_7_104() -> bool {
    (bit_of(26u8, 7) == 0u8)
}

#[verifier::opaque]
spec fn bytes_p_7_105() -> bool {
    (((((bit_of(49u8, 0) == 1u8) && ((39u8 ^ 43u8) == 12u8)) && (((54u8 ^ 111u8) == 89u8) && ((62u8 ^ 205u8) == 243u8))) && ((((75u8 ^ 75u8) == 0u8) && ((214u8 ^ 248u8) == 46u8)) && (((222u8 ^ 7u8) == 217u8) && ((128u8 ^ 200u8) == 72u8)))) && (((((34u8 ^ 43u8) == 9u8) && ((226u8 ^ 151u8) == 117u8)) && (((128u8 ^ 124u8) == 252u8) && ((158u8 ^ 48u8) == 174u8))) && ((((3u8 ^ 114u8) == 113u8) && ((60u8 ^ 133u8) == 185u8)) && (((60u8 ^ 15u8) == 51u8) && (((3u8 ^ 206u8) == 205u8) && ((88u8 ^ 96u8) == 56u8))))))
}

#[verifier::opaque]
spec fn bytes_p_7_106() -> bool {
    (bit_of(49u8, 1) == 0u8)
}

#[verifier::opaque]
spec fn bytes_p_7_107() -> bool {
    (bit_of(49u8, 2) == 0u8)
}

#[verifier::opaque]
spec fn bytes_p_7_108() -> bool {
    (bit_of(49u8, 3) == 0u8)
}

#[verifier::opaque]
spec fn bytes_p_7_109() -> bool {
    (((((bit_of(49u8, 4) == 1u8) && ((12u8 ^ 162u8) == 174u8)) && (((89u8 ^ 241u8) == 168u8) && ((243u8 ^ 214u8) == 37u8))) && ((((0u8 ^ 188u8) == 188u8) && ((46u8 ^ 132u8) == 170u8)) && (((217u8 ^ 127u8) == 166u8) && ((72u8 ^ 128u8) == 200u8)))) && (((((9u8 ^ 188u8) == 181u8) && ((117u8 ^ 114u8) == 7u8)) && (((252u8 ^ 201u8) == 53u8) && ((174u8 ^ 7u8) == 169u8))) && ((((113u8 ^ 35u8) == 82u8) && ((185u8 ^ 87u8) == 238u8)) && (((51u8 ^ 248u8) == 203u8) && (((205u8 ^ 224u8) == 45u8) && ((56u8 ^ 12u8) == 52u8))))))
}

#[verifier::opaque]
spec fn bytes_p_7_110() -> bool {
    (((((bit_of(49u8, 5) == 1u8) && ((174u8 ^ 68u8) == 234u8)) && (((168u8 ^ 227u8) == 75u8) && ((37u8 ^ 173u8) == 136u8))) && ((((188u8 ^ 121u8) == 197u8) && ((170u8 ^ 9u8) == 163u8)) && (((166u8 ^ 255u8) == 89u8) && ((200u8 ^ 0u8) == 200u8)))) && (((((181u8 ^ 121u8) == 204u8) && ((7u8 ^ 229u8) == 226u8)) && (((53u8 ^ 146u8) == 167u8) && ((169u8 ^ 15u8) == 166u8))) && ((((82u8 ^ 70u8) == 20u8) && ((238u8 ^ 174u8) == 64u8)) && (((203u8 ^ 240u8) == 59u8) && (((45u8 ^ 193u8) == 236u8) && ((52u8 ^ 25u8) == 45u8))))))
}

#[verifier::opaque]
spec fn bytes_p_7_111() -> bool {
    (bit_of(49u8, 6) == 0u8)
}

#[verifier::opaque]
spec fn bytes_p_7_112() -> bool {
    (bit_of(49u8, 7) == 0u8)
}

#[verifier::opaque]
spec fn bytes_p_7_113() -> bool {
    (bit_of(80u8, 0) == 0u8)
}

#[verifier::opaque]
spec fn bytes_p_7_114() -> bool {
    (bit_of(80u8, 1) == 0u8)
}

#[verifier::opaque]
spec fn bytes_p_7_115() -> bool {
    (bit_of(80u8, 2) == 0u8)
}

#[verifier::opaque]
spec fn bytes_p_7_116() -> bool {
    (bit_of(80u8, 3) == 0u8)
}

#[verifier::opaque]
spec fn bytes_p_7_117() -> bool {
    (((((bit_of(80u8, 4) == 1u8) && ((234u8 ^ 36u8) == 206u8)) && (((75u8 ^ 164u8) == 239u8) && ((136u8 ^ 241u8) == 121u8))) && ((((197u8 ^ 214u8) == 19u8) && ((163u8 ^ 188u8) == 31u8)) && (((89u8 ^ 132u8) == 221u8) && ((200u8 ^ 127u8) == 183u8)))) && (((((204u8 ^ 128u8) == 76u8) && ((226u8 ^ 188u8) == 94u8)) && (((167u8 ^ 114u8) == 213u8) && ((166u8 ^ 201u8) == 111u8))) && ((((20u8 ^ 7u8) == 19u8) && ((64u8 ^ 35u8) == 99u8)) && (((59u8 ^ 87u8) == 108u8) && (((236u8 ^ 248u8) == 20u8) && ((45u8 ^ 224u8) == 205u8))))))
}

#[verifier::opaque]
spec fn bytes_p_7_118() -> bool {
    (bit_of(80u8, 5) == 0u8)
}

#[verifier::opaque]
spec fn bytes_p_7_119() -> bool {
    (((((bit_of(80u8, 6) == 1u8) && ((206u8 ^ 25u8) == 215u8)) && (((239u8 ^ 145u8) == 126u8) && ((121u8 ^ 198u8) == 191u8))) && ((((19u8 ^ 91u8) == 72u8) && ((31u8 ^ 243u8) == 236u8)) && (((221u8 ^ 18u8) == 207u8) && ((183u8 ^ 254u8) == 73u8)))) && (((((76u8 ^ 1u8) == 77u8) && ((94u8 ^ 242u8) == 172u8)) && (((213u8 ^ 202u8) == 31u8) && ((111u8 ^ 37u8) == 74u8))) && ((((19u8 ^ 31u8) == 12u8) && ((99u8 ^ 140u8) == 239u8)) && (((108u8 ^ 92u8) == 48u8) && (((20u8 ^ 225u8) == 245u8) && ((205u8 ^ 131u8) == 78u8))))))
}

#[verifier::opaque]
spec fn bytes_p_7_120() -> bool {
    (bit_of(80u8, 7) == 0u8)
}

#[verifier::opaque]
spec fn bytes_p_7_121() -> bool {
    (((((bit_of(9u8, 0) == 1u8) && ((215u8 ^ 106u8) == 189u8)) && (((126u8 ^ 69u8) == 59u8) && ((191u8 ^ 26u8) == 165u8))) && ((((72u8 ^ 111u8) == 39u8) && ((236u8 ^ 205u8) == 33u8)) && (((207u8 ^ 75u8) == 132u8) && ((73u8 ^ 248u8) == 177u8)))) && (((((77u8 ^ 7u8) == 74u8) && ((172u8 ^ 200u8) == 100u8)) && (((31u8 ^ 43u8) == 52u8) && ((74u8 ^ 151u8) == 221u8))) && ((((12u8 ^ 124u8) == 112u8) && ((239u8 ^ 48u8) == 223u8)) && (((48u8 ^ 114u8) == 66u8) && (((245u8 ^ 133u8) == 112u8) && ((78u8 ^ 15u8) == 65u8))))))
}

#[verifier::opaque]
spec fn bytes_p_7_122() -> bool {
    (bit_of(9u8, 1) == 0u8)
}

#[verifier::opaque]
spec fn bytes_p_7_123() -> bool {
    (bit_of(9u8, 2) == 0u8)
}

#[verifier::opaque]
spec fn bytes_p_7_124() -> bool {
    (((((bit_of(9u8, 3) == 1u8) && ((189u8 ^ 80u8) == 237u8)) && (((59u8 ^ 43u8) == 16u8) && ((165u8 ^ 210u8) == 119u8))) && ((((39u8 ^ 120u8) == 95u8) && ((33u8 ^ 107u8) == 74u8)) && (((132u8 ^ 94u8) == 218u8) && ((177u8 ^ 194u8) == 115u8)))) && (((((74u8 ^ 63u8) == 117u8) && ((100u8 ^ 64u8) == 36u8)) && (((52u8 ^ 94u8) == 106u8) && ((221u8 ^ 185u8) == 100u8))) && ((((112u8 ^ 228u8) == 148u8) && ((223u8 ^ 131u8) == 92u8)) && (((66u8 ^ 145u8) == 211u8) && (((112u8 ^ 43u8) == 91u8) && ((65u8 ^ 124u8) == 61u8))))))
}

#[verifier::opaque]
spec fn bytes_p_7_125() -> bool {
    (bit_of(9u8, 4) == 0u8)
}

#[verifier::opaque]
spec fn bytes_p_7_126() -> bool {
    (bit_of(9u8, 5) == 0u8)
}

#[verifier::opaque]
spec fn bytes_p_7_127() -> bool {
    (bit_of(9u8, 6) == 0u8)
}

#[verifier::opaque]
spec fn bytes_p_7_128() -> bool {
    (bit_of(9u8, 7) == 0u8)
}

#[verifier::opaque]
spec fn bytes_final() -> bool {
    (((((((1u8 ^ 13u8) == 12u8) && ((12u8 ^ 168u8) == 164u8)) && (((164u8 ^ 73u8) == 237u8) && (((0u8 ^ 206u8) == 206u8) && ((206u8 ^ 70u8) == 136u8)))) && ((((136u8 ^ 152u8) == 16u8) && (((0u8 ^ 96u8) == 96u8) && ((96u8 ^ 57u8) == 89u8))) && (((89u8 ^ 46u8) == 119u8) && (((0u8 ^ 85u8) == 85u8) && ((85u8 ^ 54u8) == 99u8))))) && (((((99u8 ^ 60u8) == 95u8) && (((0u8 ^ 172u8) == 172u8) && ((172u8 ^ 174u8) == 2u8))) && (((2u8 ^ 72u8) == 74u8) && (((0u8 ^ 232u8) == 232u8) && ((232u8 ^ 2u8) == 234u8)))) && ((((234u8 ^ 48u8) == 218u8) && (((0u8 ^ 63u8) == 63u8) && ((63u8 ^ 207u8) == 240u8))) && (((240u8 ^ 131u8) == 115u8) && (((0u8 ^ 161u8) == 161u8) && ((161u8 ^ 191u8) == 30u8)))))) && ((((((30u8 ^ 107u8) == 117u8) && (((0u8 ^ 28u8) == 28u8) && ((28u8 ^ 198u8) == 218u8))) && (((218u8 ^ 254u8) == 36u8) && (((0u8 ^ 154u8) == 154u8) && ((154u8 ^ 210u8) == 72u8)))) && ((((72u8 ^ 34u8) == 106u8) && (((0u8 ^ 151u8) == 151u8) && ((151u8 ^ 81u8) == 198u8))) && (((198u8 ^ 162u8) == 100u8) && (((0u8 ^ 169u8) == 169u8) && ((169u8 ^ 125u8) == 212u8))))) && (((((212u8 ^ 64u8) == 148u8) && (((85u8 ^ 79u8) == 26u8) && ((26u8 ^ 70u8) == 92u8))) && (((0u8 ^ 133u8) == 133u8) && (((133u8 ^ 96u8) == 229u8) && ((229u8 ^ 54u8) == 211u8)))) && ((((0u8 ^ 61u8) == 61u8) && (((61u8 ^ 173u8) == 144u8) && ((144u8 ^ 203u8) == 91u8))) && (((0u8 ^ 5u8) == 5u8) && (((5u8 ^ 53u8) == 48u8) && ((48u8 ^ 13u8) == 61u8)))))))
}

/// The byte operations on constants that the powers of alpha up to alpha^8 go through.
spec fn alpha_byte_facts() -> bool {
    ((((((((((bytes_x_1() && bytes_x_2()) && (bytes_x_3() && bytes_x_4())) && ((bytes_x_5() && bytes_x_6()) && (bytes_x_7() && bytes_x_8()))) && (((bytes_x_9() && bytes_x_10()) && (bytes_x_11() && bytes_x_12())) && ((bytes_x_13() && bytes_x_14()) && (bytes_x_15() && bytes_x_16())))) && ((((bytes_x_17() && bytes_x_18()) && (bytes_x_19() && bytes_x_20())) && ((bytes_x_21() && bytes_x_22()) && (bytes_x_23() && bytes_x_24()))) && (((bytes_x_25() && bytes_x_26()) && (bytes_x_27() && bytes_x_28())) && ((bytes_x_29() && bytes_x_30()) && (bytes_x_31() && bytes_x_32()))))) && (((((bytes_x_33() && bytes_x_34()) && (bytes_x_35() && bytes_x_36())) && ((bytes_x_37() && bytes_x_38()) && (bytes_x_39() && bytes_x_40()))) && (((bytes_x_41() && bytes_x_42()) && (bytes_x_43() && bytes_x_44())) && ((bytes_x_45() && bytes_x_46()) && (bytes_x_47() && bytes_x_48())))) && ((((bytes_x_49() && bytes_x_50()) && (bytes_x_51() && bytes_x_52())) && ((bytes_x_53() && bytes_x_54()) && (bytes_x_55() && bytes_x_56()))) && (((bytes_x_57() && bytes_x_58()) && (bytes_x_59() && bytes_x_60())) && ((bytes_x_61() && bytes_x_62()) && (bytes_x_63() && bytes_x_64())))))) && ((((((bytes_x_65() && bytes_x_66()) && (bytes_x_67() && bytes_x_68())) && ((bytes_x_69() && bytes_x_70()) && (bytes_x_71() && bytes_x_72()))) && (((bytes_x_73() && bytes_x_74()) && (bytes_x_75() && bytes_x_76())) && ((bytes_x_77() && bytes_x_78()) && (bytes_x_79() && bytes_x_80())))) && ((((bytes_x_81() && bytes_x_82()) && (bytes_x_83() && bytes_x_84())) && ((bytes_x_85() && bytes_x_86()) && (bytes_x_87() && bytes_x_88()))) && (((bytes_x_89() && bytes_x_90()) && (bytes_x_91() && bytes_x_92())) && ((bytes_x_93() && bytes_x_94()) && (bytes_x_95() && bytes_x_96()))))) && (((((bytes_x_97() && bytes_x_98()) && (bytes_x_99() && bytes_x_100())) && ((bytes_x_101() && bytes_x_102()) && (bytes_x_103() && bytes_x_104()))) && (((bytes_x_105() && bytes_x_106()) && (bytes_x_107() && bytes_x_108())) && ((bytes_x_109() && bytes_x_110()) && (bytes_x_111() && bytes_x_112())))) && ((((bytes_x_113() && bytes_x_114()) && (bytes_x_115() && bytes_x_116())) && ((bytes_x_117() && bytes_x_118()) && (bytes_x_119() && bytes_x_120()))) && (((bytes_x_121() && bytes_x_122()) && (bytes_x_123() && bytes_x_124())) && ((bytes_x_125() && bytes_x_126()) && (bytes_x_127() && bytes_p_1_1()))))))) && (((((((bytes_p_1_2() && bytes_p_1_3()) && (bytes_p_1_4() && bytes_p_1_5())) && ((bytes_p_1_6() && bytes_p_1_7()) && (bytes_p_1_8() && bytes_p_1_9()))) && (((bytes_p_1_10() && bytes_p_1_11()) && (bytes_p_1_12() && bytes_p_1_13())) && ((bytes_p_1_14() && bytes_p_1_15()) && (bytes_p_1_16() && bytes_p_1_17())))) && ((((bytes_p_1_18() && bytes_p_1_19()) && (bytes_p_1_20() && bytes_p_1_21())) && ((bytes_p_1_22() && bytes_p_1_23()) && (bytes_p_1_24() && bytes_p_1_25()))) && (((bytes_p_1_26() && bytes_p_1_27()) && (bytes_p_1_28() && bytes_p_1_29())) && ((bytes_p_1_30() && bytes_p_1_31()) && (bytes_p_1_32() && bytes_p_1_33()))))) && (((((bytes_p_1_34() && bytes_p_1_35()) && (bytes_p_1_36() && bytes_p_1_37())) && ((bytes_p_1_38() && bytes_p_1_39()) && (bytes_p_1_40() && bytes_p_1_41()))) && (((bytes_p_1_42() && bytes_p_1_43()) && (bytes_p_1_44() && bytes_p_1_45())) && ((bytes_p_1_46() && bytes_p_1_47()) && (bytes_p_1_48() && bytes_p_1_49())))) && ((((bytes_p_1_50() && bytes_p_1_51()) && (bytes_p_1_52() && bytes_p_1_53())) && ((bytes_p_1_54() && bytes_p_1_55()) && (bytes_p_1_56() && bytes_p_1_57()))) && (((bytes_p_1_58() && bytes_p_1_59()) && (bytes_p_1_60() && bytes_p_1_61())) && ((bytes_p_1_62() && bytes_p_1_63()) && (bytes_p_1_64() && bytes_p_1_65())))))) && ((((((bytes_p_1_66() && bytes_p_1_67()) && (bytes_p_1_68() && bytes_p_1_69())) && ((bytes_p_1_70() && bytes_p_1_71()) && (bytes_p_1_72() && bytes_p_1_73()))) && (((bytes_p_1_74() && bytes_p_1_75()) && (bytes_p_1_76() && bytes_p_1_77())) && ((bytes_p_1_78() && bytes_p_1_79()) && (bytes_p_1_80() && bytes_p_1_81())))) && ((((bytes_p_1_82() && bytes_p_1_83()) && (bytes_p_1_84() && bytes_p_1_85())) && ((bytes_p_1_86() && bytes_p_1_87()) && (bytes_p_1_88() && bytes_p_1_89()))) && (((bytes_p_1_90() && bytes_p_1_91()) && (bytes_p_1_92() && bytes_p_1_93())) && ((bytes_p_1_94() && bytes_p_1_95()) && (bytes_p_1_96() && bytes_p_1_97()))))) && (((((bytes_p_1_98() && bytes_p_1_99()) && (bytes_p_1_100() && bytes_p_1_101())) && ((bytes_p_1_102() && bytes_p_1_103()) && (bytes_p_1_104() && bytes_p_1_105()))) && (((bytes_p_1_106() && bytes_p_1_107()) && (bytes_p_1_108() && bytes_p_1_109())) && ((bytes_p_1_110() && bytes_p_1_111()) && (bytes_p_1_112() && bytes_p_1_113())))) && ((((bytes_p_1_114() && bytes_p_1_115()) && (bytes_p_1_116() && bytes_p_1_117())) && ((bytes_p_1_118() && bytes_p_1_119()) && (bytes_p_1_120() && bytes_p_1_121()))) && (((bytes_p_1_122() && bytes_p_1_123()) && (bytes_p_1_124() && bytes_p_1_125())) && ((bytes_p_1_126() && bytes_p_1_127()) && (bytes_p_1_128() && bytes_p_2_1())))))))) && ((((((((bytes_p_2_2() && bytes_p_2_3()) && (bytes_p_2_4() && bytes_p_2_5())) && ((bytes_p_2_6() && bytes_p_2_7()) && (bytes_p_2_8() && bytes_p_2_9()))) && (((bytes_p_2_10() && bytes_p_2_11()) && (bytes_p_2_12() && bytes_p_2_13())) && ((bytes_p_2_14() && bytes_p_2_15()) && (bytes_p_2_16() && bytes_p_2_17())))) && ((((bytes_p_2_18() && bytes_p_2_19()) && (bytes_p_2_20() && bytes_p_2_21())) && ((bytes_p_2_22() && bytes_p_2_23()) && (bytes_p_2_24() && bytes_p_2_25()))) && (((bytes_p_2_26() && bytes_p_2_27()) && (bytes_p_2_28() && bytes_p_2_29())) && ((bytes_p_2_30() && bytes_p_2_31()) && (bytes_p_2_32() && bytes_p_2_33()))))) && (((((bytes_p_2_34() && bytes_p_2_35()) && (bytes_p_2_36() && bytes_p_2_37())) && ((bytes_p_2_38() && bytes_p_2_39()) && (bytes_p_2_40() && bytes_p_2_41()))) && (((bytes_p_2_42() && bytes_p_2_43()) && (bytes_p_2_44() && bytes_p_2_45())) && ((bytes_p_2_46() && bytes_p_2_47()) && (bytes_p_2_48() && bytes_p_2_49())))) && ((((bytes_p_2_50() && bytes_p_2_51()) && (bytes_p_2_52() && bytes_p_2_53())) && ((bytes_p_2_54() && bytes_p_2_55()) && (bytes_p_2_56() && bytes_p_2_57()))) && (((bytes_p_2_58() && bytes_p_2_59()) && (bytes_p_2_60() && bytes_p_2_61())) && ((bytes_p_2_62() && bytes_p_2_63()) && (bytes_p_2_64() && bytes_p_2_65())))))) && ((((((bytes_p_2_66() && bytes_p_2_67()) && (bytes_p_2_68() && bytes_p_2_69())) && ((bytes_p_2_70() && bytes_p_2_71()) && (bytes_p_2_72() && bytes_p_2_73()))) && (((bytes_p_2_74() && bytes_p_2_75()) && (bytes_p_2_76() && bytes_p_2_77())) && ((bytes_p_2_78() && bytes_p_2_79()) && (bytes_p_2_80() && bytes_p_2_81())))) && ((((bytes_p_2_82() && bytes_p_2_83()) && (bytes_p_2_84() && bytes_p_2_85())) && ((bytes_p_2_86() && bytes_p_2_87()) && (bytes_p_2_88() && bytes_p_2_89()))) && (((bytes_p_2_90() && bytes_p_2_91()) && (bytes_p_2_92() && bytes_p_2_93())) && ((bytes_p_2_94() && bytes_p_2_95()) && (bytes_p_2_96() && bytes_p_2_97()))))) && (((((bytes_p_2_98() && bytes_p_2_99()) && (bytes_p_2_100() && bytes_p_2_101())) && ((bytes_p_2_102() && bytes_p_2_103()) && (bytes_p_2_104() && bytes_p_2_105()))) && (((bytes_p_2_106() && bytes_p_2_107()) && (bytes_p_2_108() && bytes_p_2_109())) && ((bytes_p_2_110() && bytes_p_2_111()) && (bytes_p_2_112() && bytes_p_2_113())))) && ((((bytes_p_2_114() && bytes_p_2_115()) && (bytes_p_2_116() && bytes_p_2_117())) && ((bytes_p_2_118() && bytes_p_2_119()) && (bytes_p_2_120() && bytes_p_2_121()))) && (((bytes_p_2_122() && bytes_p_2_123()) && (bytes_p_2_124() && bytes_p_2_125())) && ((bytes_p_2_126() && bytes_p_2_127()) && (bytes_p_2_128() && bytes_p_3_1()))))))) && (((((((bytes_p_3_2() && bytes_p_3_3()) && (bytes_p_3_4() && bytes_p_3_5())) && ((bytes_p_3_6() && bytes_p_3_7()) && (bytes_p_3_8() && bytes_p_3_9()))) && (((bytes_p_3_10() && bytes_p_3_11()) && (bytes_p_3_12() && bytes_p_3_13())) && ((bytes_p_3_14() && bytes_p_3_15()) && (bytes_p_3_16() && bytes_p_3_17())))) && ((((bytes_p_3_18() && bytes_p_3_19()) && (bytes_p_3_20() && bytes_p_3_21())) && ((bytes_p_3_22() && bytes_p_3_23()) && (bytes_p_3_24() && bytes_p_3_25()))) && (((bytes_p_3_26() && bytes_p_3_27()) && (bytes_p_3_28() && bytes_p_3_29())) && ((bytes_p_3_30() && bytes_p_3_31()) && (bytes_p_3_32() && bytes_p_3_33()))))) && (((((bytes_p_3_34() && bytes_p_3_35()) && (bytes_p_3_36() && bytes_p_3_37())) && ((bytes_p_3_38() && bytes_p_3_39()) && (bytes_p_3_40() && bytes_p_3_41()))) && (((bytes_p_3_42() && bytes_p_3_43()) && (bytes_p_3_44() && bytes_p_3_45())) && ((bytes_p_3_46() && bytes_p_3_47()) && (bytes_p_3_48() && bytes_p_3_49())))) && ((((bytes_p_3_50() && bytes_p_3_51()) && (bytes_p_3_52() && bytes_p_3_53())) && ((bytes_p_3_54() && bytes_p_3_55()) && (bytes_p_3_56() && bytes_p_3_57()))) && (((bytes_p_3_58() && bytes_p_3_59()) && (bytes_p_3_60() && bytes_p_3_61())) && ((bytes_p_3_62() && bytes_p_3_63()) && (bytes_p_3_64() && bytes_p_3_65())))))) && ((((((bytes_p_3_66() && bytes_p_3_67()) && (bytes_p_3_68() && bytes_p_3_69())) && ((bytes_p_3_70() && bytes_p_3_71()) && (bytes_p_3_72() && bytes_p_3_73()))) && (((bytes_p_3_74() && bytes_p_3_75()) && (bytes_p_3_76() && bytes_p_3_77())) && ((bytes_p_3_78() && bytes_p_3_79()) && (bytes_p_3_80() && bytes_p_3_81())))) && ((((bytes_p_3_82() && bytes_p_3_83()) && (bytes_p_3_84() && bytes_p_3_85())) && ((bytes_p_3_86() && bytes_p_3_87()) && (bytes_p_3_88() && bytes_p_3_89()))) && (((bytes_p_3_90() && bytes_p_3_91()) && (bytes_p_3_92() && bytes_p_3_93())) && ((bytes_p_3_94() && bytes_p_3_95()) && (bytes_p_3_96() && bytes_p_3_97()))))) && (((((bytes_p_3_98() && bytes_p_3_99()) && (bytes_p_3_100() && bytes_p_3_101())) && ((bytes_p_3_102() && bytes_p_3_103()) && (bytes_p_3_104() && bytes_p_3_105()))) && (((bytes_p_3_106() && bytes_p_3_107()) && (bytes_p_3_108() && bytes_p_3_109())) && ((bytes_p_3_110() && bytes_p_3_111()) && (bytes_p_3_112() && bytes_p_3_113())))) && ((((bytes_p_3_114() && bytes_p_3_115()) && (bytes_p_3_116() && bytes_p_3_117())) && ((bytes_p_3_118() && bytes_p_3_119()) && (bytes_p_3_120() && bytes_p_3_121()))) && (((bytes_p_3_122() && bytes_p_3_123()) && (bytes_p_3_124() && bytes_p_3_125())) && ((bytes_p_3_126() && bytes_p_3_127()) && (bytes_p_3_128() && bytes_p_4_1()))))))))) && (((((((((bytes_p_4_2() && bytes_p_4_3()) && (bytes_p_4_4() && bytes_p_4_5())) && ((bytes_p_4_6() && bytes_p_4_7()) && (bytes_p_4_8() && bytes_p_4_9()))) && (((bytes_p_4_10() && bytes_p_4_11()) && (bytes_p_4_12() && bytes_p_4_13())) && ((bytes_p_4_14() && bytes_p_4_15()) && (bytes_p_4_16() && bytes_p_4_17())))) && ((((bytes_p_4_18() && bytes_p_4_19()) && (bytes_p_4_20() && bytes_p_4_21())) && ((bytes_p_4_22() && bytes_p_4_23()) && (bytes_p_4_24() && bytes_p_4_25()))) && (((bytes_p_4_26() && bytes_p_4_27()) && (bytes_p_4_28() && bytes_p_4_29())) && ((bytes_p_4_30() && bytes_p_4_31()) && (bytes_p_4_32() && bytes_p_4_33()))))) && (((((bytes_p_4_34() && bytes_p_4_35()) && (bytes_p_4_36() && bytes_p_4_37())) && ((bytes_p_4_38() && bytes_p_4_39()) && (bytes_p_4_40() && bytes_p_4_41()))) && (((bytes_p_4_42() && bytes_p_4_43()) && (bytes_p_4_44() && bytes_p_4_45())) && ((bytes_p_4_46() && bytes_p_4_47()) && (bytes_p_4_48() && bytes_p_4_49())))) && ((((bytes_p_4_50() && bytes_p_4_51()) && (bytes_p_4_52() && bytes_p_4_53())) && ((bytes_p_4_54() && bytes_p_4_55()) && (bytes_p_4_56() && bytes_p_4_57()))) && (((bytes_p_4_58() && bytes_p_4_59()) && (bytes_p_4_60() && bytes_p_4_61())) && ((bytes_p_4_62() && bytes_p_4_63()) && (bytes_p_4_64() && bytes_p_4_65())))))) && ((((((bytes_p_4_66() && bytes_p_4_67()) && (bytes_p_4_68() && bytes_p_4_69())) && ((bytes_p_4_70() && bytes_p_4_71()) && (bytes_p_4_72() && bytes_p_4_73()))) && (((bytes_p_4_74() && bytes_p_4_75()) && (bytes_p_4_76() && bytes_p_4_77())) && ((bytes_p_4_78() && bytes_p_4_79()) && (bytes_p_4_80() && bytes_p_4_81())))) && ((((bytes_p_4_82() && bytes_p_4_83()) && (bytes_p_4_84() && bytes_p_4_85())) && ((bytes_p_4_86() && bytes_p_4_87()) && (bytes_p_4_88() && bytes_p_4_89()))) && (((bytes_p_4_90() && bytes_p_4_91()) && (bytes_p_4_92() && bytes_p_4_93())) && ((bytes_p_4_94() && bytes_p_4_95()) && (bytes_p_4_96() && bytes_p_4_97()))))) && (((((bytes_p_4_98() && bytes_p_4_99()) && (bytes_p_4_100() && bytes_p_4_101())) && ((bytes_p_4_102() && bytes_p_4_103()) && (bytes_p_4_104() && bytes_p_4_105()))) && (((bytes_p_4_106() && bytes_p_4_107()) && (bytes_p_4_108() && bytes_p_4_109())) && ((bytes_p_4_110() && bytes_p_4_111()) && (bytes_p_4_112() && bytes_p_4_113())))) && ((((bytes_p_4_114() && bytes_p_4_115()) && (bytes_p_4_116() && bytes_p_4_117())) && ((bytes_p_4_118() && bytes_p_4_119()) && (bytes_p_4_120() && bytes_p_4_121()))) && (((bytes_p_4_122() && bytes_p_4_123()) && (bytes_p_4_124() && bytes_p_4_125())) && ((bytes_p_4_126() && bytes_p_4_127()) && (bytes_p_4_128() && bytes_p_5_1()))))))) && (((((((bytes_p_5_2() && bytes_p_5_3()) && (bytes_p_5_4() && bytes_p_5_5())) && ((bytes_p_5_6() && bytes_p_5_7()) && (bytes_p_5_8() && bytes_p_5_9()))) && (((bytes_p_5_10() && bytes_p_5_11()) && (bytes_p_5_12() && bytes_p_5_13())) && ((bytes_p_5_14() && bytes_p_5_15()) && (bytes_p_5_16() && bytes_p_5_17())))) && ((((bytes_p_5_18() && bytes_p_5_19()) && (bytes_p_5_20() && bytes_p_5_21())) && ((bytes_p_5_22() && bytes_p_5_23()) && (bytes_p_5_24() && bytes_p_5_25()))) && (((bytes_p_5_26() && bytes_p_5_27()) && (bytes_p_5_28() && bytes_p_5_29())) && ((bytes_p_5_30() && bytes_p_5_31()) && (bytes_p_5_32() && bytes_p_5_33()))))) && (((((bytes_p_5_34() && bytes_p_5_35()) && (bytes_p_5_36() && bytes_p_5_37())) && ((bytes_p_5_38() && bytes_p_5_39()) && (bytes_p_5_40() && bytes_p_5_41()))) && (((bytes_p_5_42() && bytes_p_5_43()) && (bytes_p_5_44() && bytes_p_5_45())) && ((bytes_p_5_46() && bytes_p_5_47()) && (bytes_p_5_48() && bytes_p_5_49())))) && ((((bytes_p_5_50() && bytes_p_5_51()) && (bytes_p_5_52() && bytes_p_5_53())) && ((bytes_p_5_54() && bytes_p_5_55()) && (bytes_p_5_56() && bytes_p_5_57()))) && (((bytes_p_5_58() && bytes_p_5_59()) && (bytes_p_5_60() && bytes_p_5_61())) && ((bytes_p_5_62() && bytes_p_5_63()) && (bytes_p_5_64() && bytes_p_5_65())))))) && ((((((bytes_p_5_66() && bytes_p_5_67()) && (bytes_p_5_68() && bytes_p_5_69())) && ((bytes_p_5_70() && bytes_p_5_71()) && (bytes_p_5_72() && bytes_p_5_73()))) && (((bytes_p_5_74() && bytes_p_5_75()) && (bytes_p_5_76() && bytes_p_5_77())) && ((bytes_p_5_78() && bytes_p_5_79()) && (bytes_p_5_80() && bytes_p_5_81())))) && ((((bytes_p_5_82() && bytes_p_5_83()) && (bytes_p_5_84() && bytes_p_5_85())) && ((bytes_p_5_86() && bytes_p_5_87()) && (bytes_p_5_88() && bytes_p_5_89()))) && (((bytes_p_5_90() && bytes_p_5_91()) && (bytes_p_5_92() && bytes_p_5_93())) && ((bytes_p_5_94() && bytes_p_5_95()) && (bytes_p_5_96() && bytes_p_5_97()))))) && (((((bytes_p_5_98() && bytes_p_5_99()) && (bytes_p_5_100() && bytes_p_5_101())) && ((bytes_p_5_102() && bytes_p_5_103()) && (bytes_p_5_104() && bytes_p_5_105()))) && (((bytes_p_5_106() && bytes_p_5_107()) && (bytes_p_5_108() && bytes_p_5_109())) && ((bytes_p_5_110() && bytes_p_5_111()) && (bytes_p_5_112() && bytes_p_5_113())))) && ((((bytes_p_5_114() && bytes_p_5_115()) && (bytes_p_5_116() && bytes_p_5_117())) && ((bytes_p_5_118() && bytes_p_5_119()) && (bytes_p_5_120() && bytes_p_5_121()))) && (((bytes_p_5_122() && bytes_p_5_123()) && (bytes_p_5_124() && bytes_p_5_125())) && ((bytes_p_5_126() && bytes_p_5_127()) && (bytes_p_5_128() && bytes_p_6_1())))))))) && ((((((((bytes_p_6_2() && bytes_p_6_3()) && (bytes_p_6_4() && bytes_p_6_5())) && ((bytes_p_6_6() && bytes_p_6_7()) && (bytes_p_6_8() && bytes_p_6_9()))) && (((bytes_p_6_10() && bytes_p_6_11()) && (bytes_p_6_12() && bytes_p_6_13())) && ((bytes_p_6_14() && bytes_p_6_15()) && (bytes_p_6_16() && bytes_p_6_17())))) && ((((bytes_p_6_18() && bytes_p_6_19()) && (bytes_p_6_20() && bytes_p_6_21())) && ((bytes_p_6_22() && bytes_p_6_23()) && (bytes_p_6_24() && bytes_p_6_25()))) && (((bytes_p_6_26() && bytes_p_6_27()) && (bytes_p_6_28() && bytes_p_6_29())) && ((bytes_p_6_30() && bytes_p_6_31()) && (bytes_p_6_32() && bytes_p_6_33()))))) && (((((bytes_p_6_34() && bytes_p_6_35()) && (bytes_p_6_36() && bytes_p_6_37())) && ((bytes_p_6_38() && bytes_p_6_39()) && (bytes_p_6_40() && bytes_p_6_41()))) && (((bytes_p_6_42() && bytes_p_6_43()) && (bytes_p_6_44() && bytes_p_6_45())) && ((bytes_p_6_46() && bytes_p_6_47()) && (bytes_p_6_48() && bytes_p_6_49())))) && ((((bytes_p_6_50() && bytes_p_6_51()) && (bytes_p_6_52() && bytes_p_6_53())) && ((bytes_p_6_54() && bytes_p_6_55()) && (bytes_p_6_56() && bytes_p_6_57()))) && (((bytes_p_6_58() && bytes_p_6_59()) && (bytes_p_6_60() && bytes_p_6_61())) && ((bytes_p_6_62() && bytes_p_6_63()) && (bytes_p_6_64() && bytes_p_6_65())))))) && ((((((bytes_p_6_66() && bytes_p_6_67()) && (bytes_p_6_68() && bytes_p_6_69())) && ((bytes_p_6_70() && bytes_p_6_71()) && (bytes_p_6_72() && bytes_p_6_73()))) && (((bytes_p_6_74() && bytes_p_6_75()) && (bytes_p_6_76() && bytes_p_6_77())) && ((bytes_p_6_78() && bytes_p_6_79()) && (bytes_p_6_80() && bytes_p_6_81())))) && ((((bytes_p_6_82() && bytes_p_6_83()) && (bytes_p_6_84() && bytes_p_6_85())) && ((bytes_p_6_86() && bytes_p_6_87()) && (bytes_p_6_88() && bytes_p_6_89()))) && (((bytes_p_6_90() && bytes_p_6_91()) && (bytes_p_6_92() && bytes_p_6_93())) && ((bytes_p_6_94() && bytes_p_6_95()) && (bytes_p_6_96() && bytes_p_6_97()))))) && (((((bytes_p_6_98() && bytes_p_6_99()) && (bytes_p_6_100() && bytes_p_6_101())) && ((bytes_p_6_102() && bytes_p_6_103()) && (bytes_p_6_104() && bytes_p_6_105()))) && (((bytes_p_6_106() && bytes_p_6_107()) && (bytes_p_6_108() && bytes_p_6_109())) && ((bytes_p_6_110() && bytes_p_6_111()) && (bytes_p_6_112() && bytes_p_6_113())))) && ((((bytes_p_6_114() && bytes_p_6_115()) && (bytes_p_6_116() && bytes_p_6_117())) && ((bytes_p_6_118() && bytes_p_6_119()) && (bytes_p_6_120() && bytes_p_6_121()))) && (((bytes_p_6_122() && bytes_p_6_123()) && (bytes_p_6_124() && bytes_p_6_125())) && ((bytes_p_6_126() && bytes_p_6_127()) && (bytes_p_6_128() && bytes_p_7_1()))))))) && (((((((bytes_p_7_2() && bytes_p_7_3()) && (bytes_p_7_4() && bytes_p_7_5())) && ((bytes_p_7_6() && bytes_p_7_7()) && (bytes_p_7_8() && bytes_p_7_9()))) && (((bytes_p_7_10() && bytes_p_7_11()) && (bytes_p_7_12() && bytes_p_7_13())) && ((bytes_p_7_14() && bytes_p_7_15()) && (bytes_p_7_16() && bytes_p_7_17())))) && ((((bytes_p_7_18() && bytes_p_7_19()) && (bytes_p_7_20() && bytes_p_7_21())) && ((bytes_p_7_22() && bytes_p_7_23()) && (bytes_p_7_24() && bytes_p_7_25()))) && (((bytes_p_7_26() && bytes_p_7_27()) && (bytes_p_7_28() && bytes_p_7_29())) && ((bytes_p_7_30() && bytes_p_7_31()) && (bytes_p_7_32() && bytes_p_7_33()))))) && (((((bytes_p_7_34() && bytes_p_7_35()) && (bytes_p_7_36() && bytes_p_7_37())) && ((bytes_p_7_38() && bytes_p_7_39()) && (bytes_p_7_40() && bytes_p_7_41()))) && (((bytes_p_7_42() && bytes_p_7_43()) && (bytes_p_7_44() && bytes_p_7_45())) && ((bytes_p_7_46() && bytes_p_7_47()) && (bytes_p_7_48() && bytes_p_7_49())))) && ((((bytes_p_7_50() && bytes_p_7_51()) && (bytes_p_7_52() && bytes_p_7_53())) && ((bytes_p_7_54() && bytes_p_7_55()) && (bytes_p_7_56() && bytes_p_7_57()))) && (((bytes_p_7_58() && bytes_p_7_59()) && (bytes_p_7_60() && bytes_p_7_61())) && ((bytes_p_7_62() && bytes_p_7_63()) && (bytes_p_7_64() && bytes_p_7_65())))))) && ((((((bytes_p_7_66() && bytes_p_7_67()) && (bytes_p_7_68() && bytes_p_7_69())) && ((bytes_p_7_70() && bytes_p_7_71()) && (bytes_p_7_72() && bytes_p_7_73()))) && (((bytes_p_7_74() && bytes_p_7_75()) && (bytes_p_7_76() && bytes_p_7_77())) && ((bytes_p_7_78() && bytes_p_7_79()) && (bytes_p_7_80() && bytes_p_7_81())))) && ((((bytes_p_7_82() && bytes_p_7_83()) && (bytes_p_7_84() && bytes_p_7_85())) && ((bytes_p_7_86() && bytes_p_7_87()) && (bytes_p_7_88() && bytes_p_7_89()))) && (((bytes_p_7_90() && bytes_p_7_91()) && (bytes_p_7_92() && bytes_p_7_93())) && ((bytes_p_7_94() && bytes_p_7_95()) && (bytes_p_7_96() && bytes_p_7_97()))))) && (((((bytes_p_7_98() && bytes_p_7_99()) && (bytes_p_7_100() && bytes_p_7_101())) && ((bytes_p_7_102() && bytes_p_7_103()) && (bytes_p_7_104() && bytes_p_7_105()))) && (((bytes_p_7_106() && bytes_p_7_107()) && (bytes_p_7_108() && bytes_p_7_109())) && ((bytes_p_7_110() && bytes_p_7_111()) && (bytes_p_7_112() && bytes_p_7_113())))) && ((((bytes_p_7_114() && bytes_p_7_115()) && (bytes_p_7_116() && bytes_p_7_117())) && ((bytes_p_7_118() && bytes_p_7_119()) && (bytes_p_7_120() && bytes_p_7_121()))) && (((bytes_p_7_122() && bytes_p_7_123()) && (bytes_p_7_124() && bytes_p_7_125())) && ((bytes_p_7_126() && bytes_p_7_127()) && (bytes_p_7_128() && bytes_final()))))))))))
}

/// The byte operations of `alpha_byte_facts`, evaluated.
proof fn lemma_alpha_byte_facts()
    by (bit_vector)
    ensures
        alpha_byte_facts(),
{
}

#[verifier::opaque]
spec fn alpha_x_0() -> Seq<u8> {
    seq![13u8, 206u8, 96u8, 85u8, 172u8, 232u8, 63u8, 161u8, 28u8, 154u8, 151u8, 169u8, 85u8, 133u8, 61u8, 5u8]
}

#[verifier::opaque]
spec fn alpha_x_1() -> Seq<u8> {
    seq![26u8, 156u8, 193u8, 170u8, 88u8, 209u8, 127u8, 66u8, 57u8, 52u8, 47u8, 83u8, 171u8, 10u8, 123u8, 10u8]
}

#[verifier::opaque]
spec fn alpha_x_2() -> Seq<u8> {
    seq![52u8, 56u8, 131u8, 85u8, 177u8, 162u8, 255u8, 132u8, 114u8, 104u8, 94u8, 166u8, 86u8, 21u8, 246u8, 20u8]
}

#[verifier::opaque]
spec fn alpha_x_3() -> Seq<u8> {
    seq![104u8, 112u8, 6u8, 171u8, 98u8, 69u8, 255u8, 9u8, 229u8, 208u8, 188u8, 76u8, 173u8, 42u8, 236u8, 41u8]
}

#[verifier::opaque]
spec fn alpha_x_4() -> Seq<u8> {
    seq![208u8, 224u8, 12u8, 86u8, 197u8, 138u8, 254u8, 19u8, 202u8, 161u8, 121u8, 153u8, 90u8, 85u8, 216u8, 83u8]
}

#[verifier::opaque]
spec fn alpha_x_5() -> Seq<u8> {
    seq![160u8, 193u8, 25u8, 172u8, 138u8, 21u8, 253u8, 39u8, 148u8, 67u8, 243u8, 50u8, 181u8, 170u8, 176u8, 167u8]
}

#[verifier::opaque]
spec fn alpha_x_6() -> Seq<u8> {
    seq![199u8, 131u8, 51u8, 88u8, 21u8, 43u8, 250u8, 79u8, 40u8, 135u8, 230u8, 101u8, 106u8, 85u8, 97u8, 79u8]
}

#[verifier::opaque]
spec fn alpha_x_7() -> Seq<u8> {
    seq![142u8, 7u8, 103u8, 176u8, 42u8, 86u8, 244u8, 159u8, 80u8, 14u8, 205u8, 203u8, 212u8, 170u8, 194u8, 158u8]
}

#[verifier::opaque]
spec fn alpha_x_8() -> Seq<u8> {
    seq![155u8, 15u8, 206u8, 96u8, 85u8, 172u8, 232u8, 63u8, 161u8, 28u8, 154u8, 151u8, 169u8, 85u8, 133u8, 61u8]
}

#[verifier::opaque]
spec fn alpha_x_9() -> Seq<u8> {
    seq![54u8, 31u8, 156u8, 193u8, 170u8, 88u8, 209u8, 127u8, 66u8, 57u8, 52u8, 47u8, 83u8, 171u8, 10u8, 123u8]
}

#[verifier::opaque]
spec fn alpha_x_10() -> Seq<u8> {
    seq![108u8, 62u8, 56u8, 131u8, 85u8, 177u8, 162u8, 255u8, 132u8, 114u8, 104u8, 94u8, 166u8, 86u8, 21u8, 246u8]
}

#[verifier::opaque]
spec fn alpha_x_11() -> Seq<u8> {
    seq![95u8, 124u8, 112u8, 6u8, 171u8, 98u8, 69u8, 255u8, 9u8, 229u8, 208u8, 188u8, 76u8, 173u8, 42u8, 236u8]
}

#[verifier::opaque]
spec fn alpha_x_12() -> Seq<u8> {
    seq![57u8, 248u8, 224u8, 12u8, 86u8, 197u8, 138u8, 254u8, 19u8, 202u8, 161u8, 121u8, 153u8, 90u8, 85u8, 216u8]
}

#[verifier::opaque]
spec fn alpha_x_13() -> Seq<u8> {
    seq![245u8, 240u8, 193u8, 25u8, 172u8, 138u8, 21u8, 253u8, 39u8, 148u8, 67u8, 243u8, 50u8, 181u8, 170u8, 176u8]
}

#[verifier::opaque]
spec fn alpha_x_14() -> Seq<u8> {
    seq![109u8, 225u8, 131u8, 51u8, 88u8, 21u8, 43u8, 250u8, 79u8, 40u8, 135u8, 230u8, 101u8, 106u8, 85u8, 97u8]
}

#[verifier::opaque]
spec fn alpha_x_15() -> Seq<u8> {
    seq![218u8, 194u8, 7u8, 103u8, 176u8, 42u8, 86u8, 244u8, 159u8, 80u8, 14u8, 205u8, 203u8, 212u8, 170u8, 194u8]
}

#[verifier::opaque]
spec fn alpha_x_16() -> Seq<u8> {
    seq![51u8, 133u8, 15u8, 206u8, 96u8, 85u8, 172u8, 232u8, 63u8, 161u8, 28u8, 154u8, 151u8, 169u8, 85u8, 133u8]
}

#[verifier::opaque]
spec fn alpha_x_17() -> Seq<u8> {
    seq![225u8, 10u8, 31u8, 156u8, 193u8, 170u8, 88u8, 209u8, 127u8, 66u8, 57u8, 52u8, 47u8, 83u8, 171u8, 10u8]
}

#[verifier::opaque]
spec fn alpha_x_18() -> Seq<u8> {
    seq![194u8, 21u8, 62u8, 56u8, 131u8, 85u8, 177u8, 162u8, 255u8, 132u8, 114u8, 104u8, 94u8, 166u8, 86u8, 21u8]
}

#[verifier::opaque]
spec fn alpha_x_19() -> Seq<u8> {
    seq![132u8, 43u8, 124u8, 112u8, 6u8, 171u8, 98u8, 69u8, 255u8, 9u8, 229u8, 208u8, 188u8, 76u8, 173u8, 42u8]
}

#[verifier::opaque]
spec fn alpha_x_20() -> Seq<u8> {
    seq![8u8, 87u8, 248u8, 224u8, 12u8, 86u8, 197u8, 138u8, 254u8, 19u8, 202u8, 161u8, 121u8, 153u8, 90u8, 85u8]
}

#[verifier::opaque]
spec fn alpha_x_21() -> Seq<u8> {
    seq![16u8, 174u8, 240u8, 193u8, 25u8, 172u8, 138u8, 21u8, 253u8, 39u8, 148u8, 67u8, 243u8, 50u8, 181u8, 170u8]
}

#[verifier::opaque]
spec fn alpha_x_22() -> Seq<u8> {
    seq![167u8, 92u8, 225u8, 131u8, 51u8, 88u8, 21u8, 43u8, 250u8, 79u8, 40u8, 135u8, 230u8, 101u8, 106u8, 85u8]
}

#[verifier::opaque]
spec fn alpha_x_23() -> Seq<u8> {
    seq![78u8, 185u8, 194u8, 7u8, 103u8, 176u8, 42u8, 86u8, 244u8, 159u8, 80u8, 14u8, 205u8, 203u8, 212u8, 170u8]
}

#[verifier::opaque]
spec fn alpha_x_24() -> Seq<u8> {
    seq![27u8, 114u8, 133u8, 15u8, 206u8, 96u8, 85u8, 172u8, 232u8, 63u8, 161u8, 28u8, 154u8, 151u8, 169u8, 85u8]
}

#[verifier::opaque]
spec fn alpha_x_25() -> Seq<u8> {
    seq![54u8, 228u8, 10u8, 31u8, 156u8, 193u8, 170u8, 88u8, 209u8, 127u8, 66u8, 57u8, 52u8, 47u8, 83u8, 171u8]
}

#[verifier::opaque]
spec fn alpha_x_26() -> Seq<u8> {
    seq![235u8, 200u8, 21u8, 62u8, 56u8, 131u8, 85u8, 177u8, 162u8, 255u8, 132u8, 114u8, 104u8, 94u8, 166u8, 86u8]
}

#[verifier::opaque]
spec fn alpha_x_27() -> Seq<u8> {
    seq![214u8, 145u8, 43u8, 124u8, 112u8, 6u8, 171u8, 98u8, 69u8, 255u8, 9u8, 229u8, 208u8, 188u8, 76u8, 173u8]
}

#[verifier::opaque]
spec fn alpha_x_28() -> Seq<u8> {
    seq![43u8, 35u8, 87u8, 248u8, 224u8, 12u8, 86u8, 197u8, 138u8, 254u8, 19u8, 202u8, 161u8, 121u8, 153u8, 90u8]
}

#[verifier::opaque]
spec fn alpha_x_29() -> Seq<u8> {
    seq![86u8, 70u8, 174u8, 240u8, 193u8, 25u8, 172u8, 138u8, 21u8, 253u8, 39u8, 148u8, 67u8, 243u8, 50u8, 181u8]
}

#[verifier::opaque]
spec fn alpha_x_30() -> Seq<u8> {
    seq![43u8, 140u8, 92u8, 225u8, 131u8, 51u8, 88u8, 21u8, 43u8, 250u8, 79u8, 40u8, 135u8, 230u8, 101u8, 106u8]
}

#[verifier::opaque]
spec fn alpha_x_31() -> Seq<u8> {
    seq![86u8, 24u8, 185u8, 194u8, 7u8, 103u8, 176u8, 42u8, 86u8, 244u8, 159u8, 80u8, 14u8, 205u8, 203u8, 212u8]
}

#[verifier::opaque]
spec fn alpha_x_32() -> Seq<u8> {
    seq![43u8, 48u8, 114u8, 133u8, 15u8, 206u8, 96u8, 85u8, 172u8, 232u8, 63u8, 161u8, 28u8, 154u8, 151u8, 169u8]
}

#[verifier::opaque]
spec fn alpha_x_33() -> Seq<u8> {
    seq![209u8, 96u8, 228u8, 10u8, 31u8, 156u8, 193u8, 170u8, 88u8, 209u8, 127u8, 66u8, 57u8, 52u8, 47u8, 83u8]
}

#[verifier::opaque]
spec fn alpha_x_34() -> Seq<u8> {
    seq![162u8, 193u8, 200u8, 21u8, 62u8, 56u8, 131u8, 85u8, 177u8, 162u8, 255u8, 132u8, 114u8, 104u8, 94u8, 166u8]
}

#[verifier::opaque]
spec fn alpha_x_35() -> Seq<u8> {
    seq![195u8, 131u8, 145u8, 43u8, 124u8, 112u8, 6u8, 171u8, 98u8, 69u8, 255u8, 9u8, 229u8, 208u8, 188u8, 76u8]
}

#[verifier::opaque]
spec fn alpha_x_36() -> Seq<u8> {
    seq![134u8, 7u8, 35u8, 87u8, 248u8, 224u8, 12u8, 86u8, 197u8, 138u8, 254u8, 19u8, 202u8, 161u8, 121u8, 153u8]
}

#[verifier::opaque]
spec fn alpha_x_37() -> Seq<u8> {
    seq![139u8, 15u8, 70u8, 174u8, 240u8, 193u8, 25u8, 172u8, 138u8, 21u8, 253u8, 39u8, 148u8, 67u8, 243u8, 50u8]
}

#[verifier::opaque]
spec fn alpha_x_38() -> Seq<u8> {
    seq![22u8, 31u8, 140u8, 92u8, 225u8, 131u8, 51u8, 88u8, 21u8, 43u8, 250u8, 79u8, 40u8, 135u8, 230u8, 101u8]
}

#[verifier::opaque]
spec fn alpha_x_39() -> Seq<u8> {
    seq![44u8, 62u8, 24u8, 185u8, 194u8, 7u8, 103u8, 176u8, 42u8, 86u8, 244u8, 159u8, 80u8, 14u8, 205u8, 203u8]
}

#[verifier::opaque]
spec fn alpha_x_40() -> Seq<u8> {
    seq![223u8, 124u8, 48u8, 114u8, 133u8, 15u8, 206u8, 96u8, 85u8, 172u8, 232u8, 63u8, 161u8, 28u8, 154u8, 151u8]
}

#[verifier::opaque]
spec fn alpha_x_41() -> Seq<u8> {
    seq![57u8, 249u8, 96u8, 228u8, 10u8, 31u8, 156u8, 193u8, 170u8, 88u8, 209u8, 127u8, 66u8, 57u8, 52u8, 47u8]
}

#[verifier::opaque]
spec fn alpha_x_42() -> Seq<u8> {
    seq![114u8, 242u8, 193u8, 200u8, 21u8, 62u8, 56u8, 131u8, 85u8, 177u8, 162u8, 255u8, 132u8, 114u8, 104u8, 94u8]
}

#[verifier::opaque]
spec fn alpha_x_43() -> Seq<u8> {
    seq![228u8, 228u8, 131u8, 145u8, 43u8, 124u8, 112u8, 6u8, 171u8, 98u8, 69u8, 255u8, 9u8, 229u8, 208u8, 188u8]
}

#[verifier::opaque]
spec fn alpha_x_44() -> Seq<u8> {
    seq![79u8, 201u8, 7u8, 35u8, 87u8, 248u8, 224u8, 12u8, 86u8, 197u8, 138u8, 254u8, 19u8, 202u8, 161u8, 121u8]
}

#[verifier::opaque]
spec fn alpha_x_45() -> Seq<u8> {
    seq![158u8, 146u8, 15u8, 70u8, 174u8, 240u8, 193u8, 25u8, 172u8, 138u8, 21u8, 253u8, 39u8, 148u8, 67u8, 243u8]
}

#[verifier::opaque]
spec fn alpha_x_46() -> Seq<u8> {
    seq![187u8, 37u8, 31u8, 140u8, 92u8, 225u8, 131u8, 51u8, 88u8, 21u8, 43u8, 250u8, 79u8, 40u8, 135u8, 230u8]
}

#[verifier::opaque]
spec fn alpha_x_47() -> Seq<u8> {
    seq![241u8, 75u8, 62u8, 24u8, 185u8, 194u8, 7u8, 103u8, 176u8, 42u8, 86u8, 244u8, 159u8, 80u8, 14u8, 205u8]
}

#[verifier::opaque]
spec fn alpha_x_48() -> Seq<u8> {
    seq![101u8, 151u8, 124u8, 48u8, 114u8, 133u8, 15u8, 206u8, 96u8, 85u8, 172u8, 232u8, 63u8, 161u8, 28u8, 154u8]
}

#[verifier::opaque]
spec fn alpha_x_49() -> Seq<u8> {
    seq![77u8, 46u8, 249u8, 96u8, 228u8, 10u8, 31u8, 156u8, 193u8, 170u8, 88u8, 209u8, 127u8, 66u8, 57u8, 52u8]
}

#[verifier::opaque]
spec fn alpha_x_50() -> Seq<u8> {
    seq![154u8, 92u8, 242u8, 193u8, 200u8, 21u8, 62u8, 56u8, 131u8, 85u8, 177u8, 162u8, 255u8, 132u8, 114u8, 104u8]
}

#[verifier::opaque]
spec fn alpha_x_51() -> Seq<u8> {
    seq![52u8, 185u8, 228u8, 131u8, 145u8, 43u8, 124u8, 112u8, 6u8, 171u8, 98u8, 69u8, 255u8, 9u8, 229u8, 208u8]
}

#[verifier::opaque]
spec fn alpha_x_52() -> Seq<u8> {
    seq![239u8, 114u8, 201u8, 7u8, 35u8, 87u8, 248u8, 224u8, 12u8, 86u8, 197u8, 138u8, 254u8, 19u8, 202u8, 161u8]
}

#[verifier::opaque]
spec fn alpha_x_53() -> Seq<u8> {
    seq![89u8, 229u8, 146u8, 15u8, 70u8, 174u8, 240u8, 193u8, 25u8, 172u8, 138u8, 21u8, 253u8, 39u8, 148u8, 67u8]
}

#[verifier::opaque]
spec fn alpha_x_54() -> Seq<u8> {
    seq![178u8, 202u8, 37u8, 31u8, 140u8, 92u8, 225u8, 131u8, 51u8, 88u8, 21u8, 43u8, 250u8, 79u8, 40u8, 135u8]
}

#[verifier::opaque]
spec fn alpha_x_55() -> Seq<u8> {
    seq![227u8, 149u8, 75u8, 62u8, 24u8, 185u8, 194u8, 7u8, 103u8, 176u8, 42u8, 86u8, 244u8, 159u8, 80u8, 14u8]
}

#[verifier::opaque]
spec fn alpha_x_56() -> Seq<u8> {
    seq![198u8, 43u8, 151u8, 124u8, 48u8, 114u8, 133u8, 15u8, 206u8, 96u8, 85u8, 172u8, 232u8, 63u8, 161u8, 28u8]
}

#[verifier::opaque]
spec fn alpha_x_57() -> Seq<u8> {
    seq![140u8, 87u8, 46u8, 249u8, 96u8, 228u8, 10u8, 31u8, 156u8, 193u8, 170u8, 88u8, 209u8, 127u8, 66u8, 57u8]
}

#[verifier::opaque]
spec fn alpha_x_58() -> Seq<u8> {
    seq![24u8, 175u8, 92u8, 242u8, 193u8, 200u8, 21u8, 62u8, 56u8, 131u8, 85u8, 177u8, 162u8, 255u8, 132u8, 114u8]
}

#[verifier::opaque]
spec fn alpha_x_59() -> Seq<u8> {
    seq![48u8, 94u8, 185u8, 228u8, 131u8, 145u8, 43u8, 124u8, 112u8, 6u8, 171u8, 98u8, 69u8, 255u8, 9u8, 229u8]
}

#[verifier::opaque]
spec fn alpha_x_60() -> Seq<u8> {
    seq![231u8, 188u8, 114u8, 201u8, 7u8, 35u8, 87u8, 248u8, 224u8, 12u8, 86u8, 197u8, 138u8, 254u8, 19u8, 202u8]
}

#[verifier::opaque]
spec fn alpha_x_61() -> Seq<u8> {
    seq![73u8, 121u8, 229u8, 146u8, 15u8, 70u8, 174u8, 240u8, 193u8, 25u8, 172u8, 138u8, 21u8, 253u8, 39u8, 148u8]
}

#[verifier::opaque]
spec fn alpha_x_62() -> Seq<u8> {
    seq![21u8, 242u8, 202u8, 37u8, 31u8, 140u8, 92u8, 225u8, 131u8, 51u8, 88u8, 21u8, 43u8, 250u8, 79u8, 40u8]
}

#[verifier::opaque]
spec fn alpha_x_63() -> Seq<u8> {
    seq![42u8, 228u8, 149u8, 75u8, 62u8, 24u8, 185u8, 194u8, 7u8, 103u8, 176u8, 42u8, 86u8, 244u8, 159u8, 80u8]
}

#[verifier::opaque]
spec fn alpha_x_64() -> Seq<u8> {
    seq![84u8, 200u8, 43u8, 151u8, 124u8, 48u8, 114u8, 133u8, 15u8, 206u8, 96u8, 85u8, 172u8, 232u8, 63u8, 161u8]
}

#[verifier::opaque]
spec fn alpha_x_65() -> Seq<u8> {
    seq![47u8, 144u8, 87u8, 46u8, 249u8, 96u8, 228u8, 10u8, 31u8, 156u8, 193u8, 170u8, 88u8, 209u8, 127u8, 66u8]
}

#[verifier::opaque]
spec fn alpha_x_66() -> Seq<u8> {
    seq![94u8, 32u8, 175u8, 92u8, 242u8, 193u8, 200u8, 21u8, 62u8, 56u8, 131u8, 85u8, 177u8, 162u8, 255u8, 132u8]
}

#[verifier::opaque]
spec fn alpha_x_67() -> Seq<u8> {
    seq![59u8, 64u8, 94u8, 185u8, 228u8, 131u8, 145u8, 43u8, 124u8, 112u8, 6u8, 171u8, 98u8, 69u8, 255u8, 9u8]
}

#[verifier::opaque]
spec fn alpha_x_68() -> Seq<u8> {
    seq![118u8, 128u8, 188u8, 114u8, 201u8, 7u8, 35u8, 87u8, 248u8, 224u8, 12u8, 86u8, 197u8, 138u8, 254u8, 19u8]
}

#[verifier::opaque]
spec fn alpha_x_69() -> Seq<u8> {
    seq![236u8, 0u8, 121u8, 229u8, 146u8, 15u8, 70u8, 174u8, 240u8, 193u8, 25u8, 172u8, 138u8, 21u8, 253u8, 39u8]
}

#[verifier::opaque]
spec fn alpha_x_70() -> Seq<u8> {
    seq![216u8, 1u8, 242u8, 202u8, 37u8, 31u8, 140u8, 92u8, 225u8, 131u8, 51u8, 88u8, 21u8, 43u8, 250u8, 79u8]
}

#[verifier::opaque]
spec fn alpha_x_71() -> Seq<u8> {
    seq![176u8, 3u8, 228u8, 149u8, 75u8, 62u8, 24u8, 185u8, 194u8, 7u8, 103u8, 176u8, 42u8, 86u8, 244u8, 159u8]
}

#[verifier::opaque]
spec fn alpha_x_72() -> Seq<u8> {
    seq![231u8, 7u8, 200u8, 43u8, 151u8, 124u8, 48u8, 114u8, 133u8, 15u8, 206u8, 96u8, 85u8, 172u8, 232u8, 63u8]
}

#[verifier::opaque]
spec fn alpha_x_73() -> Seq<u8> {
    seq![206u8, 15u8, 144u8, 87u8, 46u8, 249u8, 96u8, 228u8, 10u8, 31u8, 156u8, 193u8, 170u8, 88u8, 209u8, 127u8]
}

#[verifier::opaque]
spec fn alpha_x_74() -> Seq<u8> {
    seq![156u8, 31u8, 32u8, 175u8, 92u8, 242u8, 193u8, 200u8, 21u8, 62u8, 56u8, 131u8, 85u8, 177u8, 162u8, 255u8]
}

#[verifier::opaque]
spec fn alpha_x_75() -> Seq<u8> {
    seq![191u8, 63u8, 64u8, 94u8, 185u8, 228u8, 131u8, 145u8, 43u8, 124u8, 112u8, 6u8, 171u8, 98u8, 69u8, 255u8]
}

#[verifier::opaque]
spec fn alpha_x_76() -> Seq<u8> {
    seq![249u8, 127u8, 128u8, 188u8, 114u8, 201u8, 7u8, 35u8, 87u8, 248u8, 224u8, 12u8, 86u8, 197u8, 138u8, 254u8]
}

#[verifier::opaque]
spec fn alpha_x_77() -> Seq<u8> {
    seq![117u8, 255u8, 0u8, 121u8, 229u8, 146u8, 15u8, 70u8, 174u8, 240u8, 193u8, 25u8, 172u8, 138u8, 21u8, 253u8]
}

#[verifier::opaque]
spec fn alpha_x_78() -> Seq<u8> {
    seq![109u8, 254u8, 1u8, 242u8, 202u8, 37u8, 31u8, 140u8, 92u8, 225u8, 131u8, 51u8, 88u8, 21u8, 43u8, 250u8]
}

#[verifier::opaque]
spec fn alpha_x_79() -> Seq<u8> {
    seq![93u8, 252u8, 3u8, 228u8, 149u8, 75u8, 62u8, 24u8, 185u8, 194u8, 7u8, 103u8, 176u8, 42u8, 86u8, 244u8]
}

#[verifier::opaque]
spec fn alpha_x_80() -> Seq<u8> {
    seq![61u8, 248u8, 7u8, 200u8, 43u8, 151u8, 124u8, 48u8, 114u8, 133u8, 15u8, 206u8, 96u8, 85u8, 172u8, 232u8]
}

#[verifier::opaque]
spec fn alpha_x_81() -> Seq<u8> {
    seq![253u8, 240u8, 15u8, 144u8, 87u8, 46u8, 249u8, 96u8, 228u8, 10u8, 31u8, 156u8, 193u8, 170u8, 88u8, 209u8]
}

#[verifier::opaque]
spec fn alpha_x_82() -> Seq<u8> {
    seq![125u8, 225u8, 31u8, 32u8, 175u8, 92u8, 242u8, 193u8, 200u8, 21u8, 62u8, 56u8, 131u8, 85u8, 177u8, 162u8]
}

#[verifier::opaque]
spec fn alpha_x_83() -> Seq<u8> {
    seq![125u8, 194u8, 63u8, 64u8, 94u8, 185u8, 228u8, 131u8, 145u8, 43u8, 124u8, 112u8, 6u8, 171u8, 98u8, 69u8]
}

#[verifier::opaque]
spec fn alpha_x_84() -> Seq<u8> {
    seq![250u8, 132u8, 127u8, 128u8, 188u8, 114u8, 201u8, 7u8, 35u8, 87u8, 248u8, 224u8, 12u8, 86u8, 197u8, 138u8]
}

#[verifier::opaque]
spec fn alpha_x_85() -> Seq<u8> {
    seq![115u8, 9u8, 255u8, 0u8, 121u8, 229u8, 146u8, 15u8, 70u8, 174u8, 240u8, 193u8, 25u8, 172u8, 138u8, 21u8]
}

#[verifier::opaque]
spec fn alpha_x_86() -> Seq<u8> {
    seq![230u8, 18u8, 254u8, 1u8, 242u8, 202u8, 37u8, 31u8, 140u8, 92u8, 225u8, 131u8, 51u8, 88u8, 21u8, 43u8]
}

#[verifier::opaque]
spec fn alpha_x_87() -> Seq<u8> {
    seq![204u8, 37u8, 252u8, 3u8, 228u8, 149u8, 75u8, 62u8, 24u8, 185u8, 194u8, 7u8, 103u8, 176u8, 42u8, 86u8]
}

#[verifier::opaque]
spec fn alpha_x_88() -> Seq<u8> {
    seq![152u8, 75u8, 248u8, 7u8, 200u8, 43u8, 151u8, 124u8, 48u8, 114u8, 133u8, 15u8, 206u8, 96u8, 85u8, 172u8]
}

#[verifier::opaque]
spec fn alpha_x_89() -> Seq<u8> {
    seq![183u8, 151u8, 240u8, 15u8, 144u8, 87u8, 46u8, 249u8, 96u8, 228u8, 10u8, 31u8, 156u8, 193u8, 170u8, 88u8]
}

#[verifier::opaque]
spec fn alpha_x_90() -> Seq<u8> {
    seq![110u8, 47u8, 225u8, 31u8, 32u8, 175u8, 92u8, 242u8, 193u8, 200u8, 21u8, 62u8, 56u8, 131u8, 85u8, 177u8]
}

#[verifier::opaque]
spec fn alpha_x_91() -> Seq<u8> {
    seq![91u8, 94u8, 194u8, 63u8, 64u8, 94u8, 185u8, 228u8, 131u8, 145u8, 43u8, 124u8, 112u8, 6u8, 171u8, 98u8]
}

#[verifier::opaque]
spec fn alpha_x_92() -> Seq<u8> {
    seq![182u8, 188u8, 132u8, 127u8, 128u8, 188u8, 114u8, 201u8, 7u8, 35u8, 87u8, 248u8, 224u8, 12u8, 86u8, 197u8]
}

#[verifier::opaque]
spec fn alpha_x_93() -> Seq<u8> {
    seq![235u8, 121u8, 9u8, 255u8, 0u8, 121u8, 229u8, 146u8, 15u8, 70u8, 174u8, 240u8, 193u8, 25u8, 172u8, 138u8]
}

#[verifier::opaque]
spec fn alpha_x_94() -> Seq<u8> {
    seq![81u8, 243u8, 18u8, 254u8, 1u8, 242u8, 202u8, 37u8, 31u8, 140u8, 92u8, 225u8, 131u8, 51u8, 88u8, 21u8]
}

#[verifier::opaque]
spec fn alpha_x_95() -> Seq<u8> {
    seq![162u8, 230u8, 37u8, 252u8, 3u8, 228u8, 149u8, 75u8, 62u8, 24u8, 185u8, 194u8, 7u8, 103u8, 176u8, 42u8]
}

#[verifier::opaque]
spec fn alpha_x_96() -> Seq<u8> {
    seq![68u8, 205u8, 75u8, 248u8, 7u8, 200u8, 43u8, 151u8, 124u8, 48u8, 114u8, 133u8, 15u8, 206u8, 96u8, 85u8]
}

#[verifier::opaque]
spec fn alpha_x_97() -> Seq<u8> {
    seq![136u8, 154u8, 151u8, 240u8, 15u8, 144u8, 87u8, 46u8, 249u8, 96u8, 228u8, 10u8, 31u8, 156u8, 193u8, 170u8]
}

#[verifier::opaque]
spec fn alpha_x_98() -> Seq<u8> {
    seq![151u8, 53u8, 47u8, 225u8, 31u8, 32u8, 175u8, 92u8, 242u8, 193u8, 200u8, 21u8, 62u8, 56u8, 131u8, 85u8]
}

#[verifier::opaque]
spec fn alpha_x_99() -> Seq<u8> {
    seq![46u8, 107u8, 94u8, 194u8, 63u8, 64u8, 94u8, 185u8, 228u8, 131u8, 145u8, 43u8, 124u8, 112u8, 6u8, 171u8]
}

#[verifier::opaque]
spec fn alpha_x_100() -> Seq<u8> {
    seq![219u8, 214u8, 188u8, 132u8, 127u8, 128u8, 188u8, 114u8, 201u8, 7u8, 35u8, 87u8, 248u8, 224u8, 12u8, 86u8]
}

#[verifier::opaque]
spec fn alpha_x_101() -> Seq<u8> {
    seq![182u8, 173u8, 121u8, 9u8, 255u8, 0u8, 121u8, 229u8, 146u8, 15u8, 70u8, 174u8, 240u8, 193u8, 25u8, 172u8]
}

#[verifier::opaque]
spec fn alpha_x_102() -> Seq<u8> {
    seq![235u8, 91u8, 243u8, 18u8, 254u8, 1u8, 242u8, 202u8, 37u8, 31u8, 140u8, 92u8, 225u8, 131u8, 51u8, 88u8]
}

#[verifier::opaque]
spec fn alpha_x_103() -> Seq<u8> {
    seq![214u8, 183u8, 230u8, 37u8, 252u8, 3u8, 228u8, 149u8, 75u8, 62u8, 24u8, 185u8, 194u8, 7u8, 103u8, 176u8]
}

#[verifier::opaque]
spec fn alpha_x_104() -> Seq<u8> {
    seq![43u8, 111u8, 205u8, 75u8, 248u8, 7u8, 200u8, 43u8, 151u8, 124u8, 48u8, 114u8, 133u8, 15u8, 206u8, 96u8]
}

#[verifier::opaque]
spec fn alpha_x_105() -> Seq<u8> {
    seq![86u8, 222u8, 154u8, 151u8, 240u8, 15u8, 144u8, 87u8, 46u8, 249u8, 96u8, 228u8, 10u8, 31u8, 156u8, 193u8]
}

#[verifier::opaque]
spec fn alpha_x_106() -> Seq<u8> {
    seq![43u8, 188u8, 53u8, 47u8, 225u8, 31u8, 32u8, 175u8, 92u8, 242u8, 193u8, 200u8, 21u8, 62u8, 56u8, 131u8]
}

#[verifier::opaque]
spec fn alpha_x_107() -> Seq<u8> {
    seq![209u8, 120u8, 107u8, 94u8, 194u8, 63u8, 64u8, 94u8, 185u8, 228u8, 131u8, 145u8, 43u8, 124u8, 112u8, 6u8]
}

#[verifier::opaque]
spec fn alpha_x_108() -> Seq<u8> {
    seq![162u8, 241u8, 214u8, 188u8, 132u8, 127u8, 128u8, 188u8, 114u8, 201u8, 7u8, 35u8, 87u8, 248u8, 224u8, 12u8]
}

#[verifier::opaque]
spec fn alpha_x_109() -> Seq<u8> {
    seq![68u8, 227u8, 173u8, 121u8, 9u8, 255u8, 0u8, 121u8, 229u8, 146u8, 15u8, 70u8, 174u8, 240u8, 193u8, 25u8]
}

#[verifier::opaque]
spec fn alpha_x_110() -> Seq<u8> {
    seq![136u8, 198u8, 91u8, 243u8, 18u8, 254u8, 1u8, 242u8, 202u8, 37u8, 31u8, 140u8, 92u8, 225u8, 131u8, 51u8]
}

#[verifier::opaque]
spec fn alpha_x_111() -> Seq<u8> {
    seq![16u8, 141u8, 183u8, 230u8, 37u8, 252u8, 3u8, 228u8, 149u8, 75u8, 62u8, 24u8, 185u8, 194u8, 7u8, 103u8]
}

#[verifier::opaque]
spec fn alpha_x_112() -> Seq<u8> {
    seq![32u8, 26u8, 111u8, 205u8, 75u8, 248u8, 7u8, 200u8, 43u8, 151u8, 124u8, 48u8, 114u8, 133u8, 15u8, 206u8]
}

#[verifier::opaque]
spec fn alpha_x_113() -> Seq<u8> {
    seq![199u8, 52u8, 222u8, 154u8, 151u8, 240u8, 15u8, 144u8, 87u8, 46u8, 249u8, 96u8, 228u8, 10u8, 31u8, 156u8]
}

#[verifier::opaque]
spec fn alpha_x_114() -> Seq<u8> {
    seq![9u8, 105u8, 188u8, 53u8, 47u8, 225u8, 31u8, 32u8, 175u8, 92u8, 242u8, 193u8, 200u8, 21u8, 62u8, 56u8]
}

#[verifier::opaque]
spec fn alpha_x_115() -> Seq<u8> {
    seq![18u8, 210u8, 120u8, 107u8, 94u8, 194u8, 63u8, 64u8, 94u8, 185u8, 228u8, 131u8, 145u8, 43u8, 124u8, 112u8]
}

#[verifier::opaque]
spec fn alpha_x_116() -> Seq<u8> {
    seq![36u8, 164u8, 241u8, 214u8, 188u8, 132u8, 127u8, 128u8, 188u8, 114u8, 201u8, 7u8, 35u8, 87u8, 248u8, 224u8]
}

#[verifier::opaque]
spec fn alpha_x_117() -> Seq<u8> {
    seq![207u8, 72u8, 227u8, 173u8, 121u8, 9u8, 255u8, 0u8, 121u8, 229u8, 146u8, 15u8, 70u8, 174u8, 240u8, 193u8]
}

#[verifier::opaque]
spec fn alpha_x_118() -> Seq<u8> {
    seq![25u8, 145u8, 198u8, 91u8, 243u8, 18u8, 254u8, 1u8, 242u8, 202u8, 37u8, 31u8, 140u8, 92u8, 225u8, 131u8]
}

#[verifier::opaque]
spec fn alpha_x_119() -> Seq<u8> {
    seq![181u8, 34u8, 141u8, 183u8, 230u8, 37u8, 252u8, 3u8, 228u8, 149u8, 75u8, 62u8, 24u8, 185u8, 194u8, 7u8]
}

#[verifier::opaque]
spec fn alpha_x_120() -> Seq<u8> {
    seq![106u8, 69u8, 26u8, 111u8, 205u8, 75u8, 248u8, 7u8, 200u8, 43u8, 151u8, 124u8, 48u8, 114u8, 133u8, 15u8]
}

#[verifier::opaque]
spec fn alpha_x_121() -> Seq<u8> {
    seq![212u8, 138u8, 52u8, 222u8, 154u8, 151u8, 240u8, 15u8, 144u8, 87u8, 46u8, 249u8, 96u8, 228u8, 10u8, 31u8]
}

#[verifier::opaque]
spec fn alpha_x_122() -> Seq<u8> {
    seq![168u8, 21u8, 105u8, 188u8, 53u8, 47u8, 225u8, 31u8, 32u8, 175u8, 92u8, 242u8, 193u8, 200u8, 21u8, 62u8]
}

#[verifier::opaque]
spec fn alpha_x_123() -> Seq<u8> {
    seq![80u8, 43u8, 210u8, 120u8, 107u8, 94u8, 194u8, 63u8, 64u8, 94u8, 185u8, 228u8, 131u8, 145u8, 43u8, 124u8]
}

#[verifier::opaque]
spec fn alpha_x_124() -> Seq<u8> {
    seq![160u8, 86u8, 164u8, 241u8, 214u8, 188u8, 132u8, 127u8, 128u8, 188u8, 114u8, 201u8, 7u8, 35u8, 87u8, 248u8]
}

#[verifier::opaque]
spec fn alpha_x_125() -> Seq<u8> {
    seq![199u8, 173u8, 72u8, 227u8, 173u8, 121u8, 9u8, 255u8, 0u8, 121u8, 229u8, 146u8, 15u8, 70u8, 174u8, 240u8]
}

#[verifier::opaque]
spec fn alpha_x_126() -> Seq<u8> {
    seq![9u8, 91u8, 145u8, 198u8, 91u8, 243u8, 18u8, 254u8, 1u8, 242u8, 202u8, 37u8, 31u8, 140u8, 92u8, 225u8]
}

#[verifier::opaque]
spec fn alpha_x_127() -> Seq<u8> {
    seq![149u8, 182u8, 34u8, 141u8, 183u8, 230u8, 37u8, 252u8, 3u8, 228u8, 149u8, 75u8, 62u8, 24u8, 185u8, 194u8]
}

/// alpha^1.
#[verifier::opaque]
spec fn alpha_pow_1() -> Seq<u8> {
    seq![13u8, 206u8, 96u8, 85u8, 172u8, 232u8, 63u8, 161u8, 28u8, 154u8, 151u8, 169u8, 85u8, 133u8, 61u8, 5u8]
}

/// alpha^2.
#[verifier::opaque]
spec fn alpha_pow_2() -> Seq<u8> {
    seq![225u8, 174u8, 136u8, 52u8, 202u8, 89u8, 119u8, 236u8, 132u8, 187u8, 191u8, 156u8, 67u8, 183u8, 244u8, 76u8]
}

/// alpha^3.
#[verifier::opaque]
spec fn alpha_pow_3() -> Seq<u8> {
    seq![168u8, 70u8, 57u8, 54u8, 174u8, 2u8, 207u8, 191u8, 198u8, 210u8, 81u8, 125u8, 79u8, 96u8, 173u8, 53u8]
}

/// alpha^4.
#[verifier::opaque]
spec fn alpha_pow_4() -> Seq<u8> {
    seq![73u8, 152u8, 46u8, 60u8, 72u8, 48u8, 131u8, 107u8, 254u8, 34u8, 162u8, 64u8, 70u8, 54u8, 203u8, 13u8]
}

/// alpha^5.
#[verifier::opaque]
spec fn alpha_pow_5() -> Seq<u8> {
    seq![180u8, 130u8, 27u8, 123u8, 39u8, 73u8, 43u8, 37u8, 165u8, 222u8, 136u8, 26u8, 225u8, 16u8, 152u8, 84u8]
}

/// alpha^6.
#[verifier::opaque]
spec fn alpha_pow_6() -> Seq<u8> {
    seq![34u8, 255u8, 33u8, 37u8, 239u8, 242u8, 43u8, 199u8, 117u8, 31u8, 12u8, 108u8, 104u8, 165u8, 129u8, 214u8]
}

/// alpha^7.
#[verifier::opaque]
spec fn alpha_pow_7() -> Seq<u8> {
    seq![188u8, 249u8, 54u8, 225u8, 148u8, 142u8, 122u8, 122u8, 224u8, 143u8, 183u8, 79u8, 26u8, 49u8, 80u8, 9u8]
}

/// alpha^8.
#[verifier::opaque]
spec fn alpha_pow_8() -> Seq<u8> {
    seq![237u8, 16u8, 119u8, 95u8, 74u8, 218u8, 115u8, 117u8, 36u8, 106u8, 100u8, 148u8, 92u8, 211u8, 91u8, 61u8]
}

proof fn lemma_alpha_x_0()
    ensures
        mulx_pow(alpha_spec(), 0) == alpha_x_0(),
{
    reveal(alpha_x_0);
    assert(alpha_spec() =~= alpha_x_0());
}

proof fn lemma_alpha_x_1()
    ensures
        mulx_pow(alpha_spec(), 1) == alpha_x_1(),
{
    lemma_alpha_x_0();
    lemma_alpha_byte_facts();
    reveal(bytes_x_1);
    reveal(alpha_x_0);
    reveal(alpha_x_1);
    assert(mulx(alpha_x_0()) =~= alpha_x_1());
}

proof fn lemma_alpha_x_2()
    ensures
        mulx_pow(alpha_spec(), 2) == alpha_x_2(),
{
    lemma_alpha_x_1();
    lemma_alpha_byte_facts();
    reveal(bytes_x_2);
    reveal(alpha_x_1);
    reveal(alpha_x_2);
    assert(mulx(alpha_x_1()) =~= alpha_x_2());
}

proof fn lemma_alpha_x_3()
    ensures
        mulx_pow(alpha_spec(), 3) == alpha_x_3(),
{
    lemma_alpha_x_2();
    lemma_alpha_byte_facts();
    reveal(bytes_x_3);
    reveal(alpha_x_2);
    reveal(alpha_x_3);
    assert(mulx(alpha_x_2()) =~= alpha_x_3());
}

proof fn lemma_alpha_x_4()
    ensures
        mulx_pow(alpha_spec(), 4) == alpha_x_4(),
{
    lemma_alpha_x_3();
    lemma_alpha_byte_facts();
    reveal(bytes_x_4);
    reveal(alpha_x_3);
    reveal(alpha_x_4);
    assert(mulx(alpha_x_3()) =~= alpha_x_4());
}

proof fn lemma_alpha_x_5()
    ensures
        mulx_pow(alpha_spec(), 5) == alpha_x_5(),
{
    lemma_alpha_x_4();
    lemma_alpha_byte_facts();
    reveal(bytes_x_5);
    reveal(alpha_x_4);
    reveal(alpha_x_5);
    assert(mulx(alpha_x_4()) =~= alpha_x_5());
}

proof fn lemma_alpha_x_6()
    ensures
        mulx_pow(alpha_spec(), 6) == alpha_x_6(),
{
    lemma_alpha_x_5();
    lemma_alpha_byte_facts();
    reveal(bytes_x_6);
    reveal(alpha_x_5);
    reveal(alpha_x_6);
    assert(mulx(alpha_x_5()) =~= alpha_x_6());
}

proof fn lemma_alpha_x_7()
    ensures
        mulx_pow(alpha_spec(), 7) == alpha_x_7(),
{
    lemma_alpha_x_6();
    lemma_alpha_byte_facts();
    reveal(bytes_x_7);
    reveal(alpha_x_6);
    reveal(alpha_x_7);
    assert(mulx(alpha_x_6()) =~= alpha_x_7());
}

proof fn lemma_alpha_x_8()
    ensures
        mulx_pow(alpha_spec(), 8) == alpha_x_8(),
{
    lemma_alpha_x_7();
    lemma_alpha_byte_facts();
    reveal(bytes_x_8);
    reveal(alpha_x_7);
    reveal(alpha_x_8);
    assert(mulx(alpha_x_7()) =~= alpha_x_8());
}

proof fn lemma_alpha_x_9()
    ensures
        mulx_pow(alpha_spec(), 9) == alpha_x_9(),
{
    lemma_alpha_x_8();
    lemma_alpha_byte_facts();
    reveal(bytes_x_9);
    reveal(alpha_x_8);
    reveal(alpha_x_9);
    assert(mulx(alpha_x_8()) =~= alpha_x_9());
}

proof fn lemma_alpha_x_10()
    ensures
        mulx_pow(alpha_spec(), 10) == alpha_x_10(),
{
    lemma_alpha_x_9();
    lemma_alpha_byte_facts();
    reveal(bytes_x_10);
    reveal(alpha_x_9);
    reveal(alpha_x_10);
    assert(mulx(alpha_x_9()) =~= alpha_x_10());
}

proof fn lemma_alpha_x_11()
    ensures
        mulx_pow(alpha_spec(), 11) == alpha_x_11(),
{
    lemma_alpha_x_10();
    lemma_alpha_byte_facts();
    reveal(bytes_x_11);
    reveal(alpha_x_10);
    reveal(alpha_x_11);
    assert(mulx(alpha_x_10()) =~= alpha_x_11());
}

proof fn lemma_alpha_x_12()
    ensures
        mulx_pow(alpha_spec(), 12) == alpha_x_12(),
{
    lemma_alpha_x_11();
    lemma_alpha_byte_facts();
    reveal(bytes_x_12);
    reveal(alpha_x_11);
    reveal(alpha_x_12);
    assert(mulx(alpha_x_11()) =~= alpha_x_12());
}

proof fn lemma_alpha_x_13()
    ensures
        mulx_pow(alpha_spec(), 13) == alpha_x_13(),
{
    lemma_alpha_x_12();
    lemma_alpha_byte_facts();
    reveal(bytes_x_13);
    reveal(alpha_x_12);
    reveal(alpha_x_13);
    assert(mulx(alpha_x_12()) =~= alpha_x_13());
}

proof fn lemma_alpha_x_14()
    ensures
        mulx_pow(alpha_spec(), 14) == alpha_x_14(),
{
    lemma_alpha_x_13();
    lemma_alpha_byte_facts();
    reveal(bytes_x_14);
    reveal(alpha_x_13);
    reveal(alpha_x_14);
    assert(mulx(alpha_x_13()) =~= alpha_x_14());
}

proof fn lemma_alpha_x_15()
    ensures
        mulx_pow(alpha_spec(), 15) == alpha_x_15(),
{
    lemma_alpha_x_14();
    lemma_alpha_byte_facts();
    reveal(bytes_x_15);
    reveal(alpha_x_14);
    reveal(alpha_x_15);
    assert(mulx(alpha_x_14()) =~= alpha_x_15());
}

proof fn lemma_alpha_x_16()
    ensures
        mulx_pow(alpha_spec(), 16) == alpha_x_16(),
{
    lemma_alpha_x_15();
    lemma_alpha_byte_facts();
    reveal(bytes_x_16);
    reveal(alpha_x_15);
    reveal(alpha_x_16);
    assert(mulx(alpha_x_15()) =~= alpha_x_16());
}

proof fn lemma_alpha_x_17()
    ensures
        mulx_pow(alpha_spec(), 17) == alpha_x_17(),
{
    lemma_alpha_x_16();
    lemma_alpha_byte_facts();
    reveal(bytes_x_17);
    reveal(alpha_x_16);
    reveal(alpha_x_17);
    assert(mulx(alpha_x_16()) =~= alpha_x_17());
}

proof fn lemma_alpha_x_18()
    ensures
        mulx_pow(alpha_spec(), 18) == alpha_x_18(),
{
    lemma_alpha_x_17();
    lemma_alpha_byte_facts();
    reveal(bytes_x_18);
    reveal(alpha_x_17);
    reveal(alpha_x_18);
    assert(mulx(alpha_x_17()) =~= alpha_x_18());
}

proof fn lemma_alpha_x_19()
    ensures
        mulx_pow(alpha_spec(), 19) == alpha_x_19(),
{
    lemma_alpha_x_18();
    lemma_alpha_byte_facts();
    reveal(bytes_x_19);
    reveal(alpha_x_18);
    reveal(alpha_x_19);
    assert(mulx(alpha_x_18()) =~= alpha_x_19());
}

proof fn lemma_alpha_x_20()
    ensures
        mulx_pow(alpha_spec(), 20) == alpha_x_20(),
{
    lemma_alpha_x_19();
    lemma_alpha_byte_facts();
    reveal(bytes_x_20);
    reveal(alpha_x_19);
    reveal(alpha_x_20);
    assert(mulx(alpha_x_19()) =~= alpha_x_20());
}

proof fn lemma_alpha_x_21()
    ensures
        mulx_pow(alpha_spec(), 21) == alpha_x_21(),
{
    lemma_alpha_x_20();
    lemma_alpha_byte_facts();
    reveal(bytes_x_21);
    reveal(alpha_x_20);
    reveal(alpha_x_21);
    assert(mulx(alpha_x_20()) =~= alpha_x_21());
}

proof fn lemma_alpha_x_22()
    ensures
        mulx_pow(alpha_spec(), 22) == alpha_x_22(),
{
    lemma_alpha_x_21();
    lemma_alpha_byte_facts();
    reveal(bytes_x_22);
    reveal(alpha_x_21);
    reveal(alpha_x_22);
    assert(mulx(alpha_x_21()) =~= alpha_x_22());
}

proof fn lemma_alpha_x_23()
    ensures
        mulx_pow(alpha_spec(), 23) == alpha_x_23(),
{
    lemma_alpha_x_22();
    lemma_alpha_byte_facts();
    reveal(bytes_x_23);
    reveal(alpha_x_22);
    reveal(alpha_x_23);
    assert(mulx(alpha_x_22()) =~= alpha_x_23());
}

proof fn lemma_alpha_x_24()
    ensures
        mulx_pow(alpha_spec(), 24) == alpha_x_24(),
{
    lemma_alpha_x_23();
    lemma_alpha_byte_facts();
    reveal(bytes_x_24);
    reveal(alpha_x_23);
    reveal(alpha_x_24);
    assert(mulx(alpha_x_23()) =~= alpha_x_24());
}

proof fn lemma_alpha_x_25()
    ensures
        mulx_pow(alpha_spec(), 25) == alpha_x_25(),
{
    lemma_alpha_x_24();
    lemma_alpha_byte_facts();
    reveal(bytes_x_25);
    reveal(alpha_x_24);
    reveal(alpha_x_25);
    assert(mulx(alpha_x_24()) =~= alpha_x_25());
}

proof fn lemma_alpha_x_26()
    ensures
        mulx_pow(alpha_spec(), 26) == alpha_x_26(),
{
    lemma_alpha_x_25();
    lemma_alpha_byte_facts();
    reveal(bytes_x_26);
    reveal(alpha_x_25);
    reveal(alpha_x_26);
    assert(mulx(alpha_x_25()) =~= alpha_x_26());
}

proof fn lemma_alpha_x_27()
    ensures
        mulx_pow(alpha_spec(), 27) == alpha_x_27(),
{
    lemma_alpha_x_26();
    lemma_alpha_byte_facts();
    reveal(bytes_x_27);
    reveal(alpha_x_26);
    reveal(alpha_x_27);
    assert(mulx(alpha_x_26()) =~= alpha_x_27());
}

proof fn lemma_alpha_x_28()
    ensures
        mulx_pow(alpha_spec(), 28) == alpha_x_28(),
{
    lemma_alpha_x_27();
    lemma_alpha_byte_facts();
    reveal(bytes_x_28);
    reveal(alpha_x_27);
    reveal(alpha_x_28);
    assert(mulx(alpha_x_27()) =~= alpha_x_28());
}

proof fn lemma_alpha_x_29()
    ensures
        mulx_pow(alpha_spec(), 29) == alpha_x_29(),
{
    lemma_alpha_x_28();
    lemma_alpha_byte_facts();
    reveal(bytes_x_29);
    reveal(alpha_x_28);
    reveal(alpha_x_29);
    assert(mulx(alpha_x_28()) =~= alpha_x_29());
}

proof fn lemma_alpha_x_30()
    ensures
        mulx_pow(alpha_spec(), 30) == alpha_x_30(),
{
    lemma_alpha_x_29();
    lemma_alpha_byte_facts();
    reveal(bytes_x_30);
    reveal(alpha_x_29);
    reveal(alpha_x_30);
    assert(mulx(alpha_x_29()) =~= alpha_x_30());
}

proof fn lemma_alpha_x_31()
    ensures
        mulx_pow(alpha_spec(), 31) == alpha_x_31(),
{
    lemma_alpha_x_30();
    lemma_alpha_byte_facts();
    reveal(bytes_x_31);
    reveal(alpha_x_30);
    reveal(alpha_x_31);
    assert(mulx(alpha_x_30()) =~= alpha_x_31());
}

proof fn lemma_alpha_x_32()
    ensures
        mulx_pow(alpha_spec(), 32) == alpha_x_32(),
{
    lemma_alpha_x_31();
    lemma_alpha_byte_facts();
    reveal(bytes_x_32);
    reveal(alpha_x_31);
    reveal(alpha_x_32);
    assert(mulx(alpha_x_31()) =~= alpha_x_32());
}

proof fn lemma_alpha_x_33()
    ensures
        mulx_pow(alpha_spec(), 33) == alpha_x_33(),
{
    lemma_alpha_x_32();
    lemma_alpha_byte_facts();
    reveal(bytes_x_33);
    reveal(alpha_x_32);
    reveal(alpha_x_33);
    assert(mulx(alpha_x_32()) =~= alpha_x_33());
}

proof fn lemma_alpha_x_34()
    ensures
        mulx_pow(alpha_spec(), 34) == alpha_x_34(),
{
    lemma_alpha_x_33();
    lemma_alpha_byte_facts();
    reveal(bytes_x_34);
    reveal(alpha_x_33);
    reveal(alpha_x_34);
    assert(mulx(alpha_x_33()) =~= alpha_x_34());
}

proof fn lemma_alpha_x_35()
    ensures
        mulx_pow(alpha_spec(), 35) == alpha_x_35(),
{
    lemma_alpha_x_34();
    lemma_alpha_byte_facts();
    reveal(bytes_x_35);
    reveal(alpha_x_34);
    reveal(alpha_x_35);
    assert(mulx(alpha_x_34()) =~= alpha_x_35());
}

proof fn lemma_alpha_x_36()
    ensures
        mulx_pow(alpha_spec(), 36) == alpha_x_36(),
{
    lemma_alpha_x_35();
    lemma_alpha_byte_facts();
    reveal(bytes_x_36);
    reveal(alpha_x_35);
    reveal(alpha_x_36);
    assert(mulx(alpha_x_35()) =~= alpha_x_36());
}

proof fn lemma_alpha_x_37()
    ensures
        mulx_pow(alpha_spec(), 37) == alpha_x_37(),
{
    lemma_alpha_x_36();
    lemma_alpha_byte_facts();
    reveal(bytes_x_37);
    reveal(alpha_x_36);
    reveal(alpha_x_37);
    assert(mulx(alpha_x_36()) =~= alpha_x_37());
}

proof fn lemma_alpha_x_38()
    ensures
        mulx_pow(alpha_spec(), 38) == alpha_x_38(),
{
    lemma_alpha_x_37();
    lemma_alpha_byte_facts();
    reveal(bytes_x_38);
    reveal(alpha_x_37);
    reveal(alpha_x_38);
    assert(mulx(alpha_x_37()) =~= alpha_x_38());
}

proof fn lemma_alpha_x_39()
    ensures
        mulx_pow(alpha_spec(), 39) == alpha_x_39(),
{
    lemma_alpha_x_38();
    lemma_alpha_byte_facts();
    reveal(bytes_x_39);
    reveal(alpha_x_38);
    reveal(alpha_x_39);
    assert(mulx(alpha_x_38()) =~= alpha_x_39());
}

proof fn lemma_alpha_x_40()
    ensures
        mulx_pow(alpha_spec(), 40) == alpha_x_40(),
{
    lemma_alpha_x_39();
    lemma_alpha_byte_facts();
    reveal(bytes_x_40);
    reveal(alpha_x_39);
    reveal(alpha_x_40);
    assert(mulx(alpha_x_39()) =~= alpha_x_40());
}

proof fn lemma_alpha_x_41()
    ensures
        mulx_pow(alpha_spec(), 41) == alpha_x_41(),
{
    lemma_alpha_x_40();
    lemma_alpha_byte_facts();
    reveal(bytes_x_41);
    reveal(alpha_x_40);
    reveal(alpha_x_41);
    assert(mulx(alpha_x_40()) =~= alpha_x_41());
}

proof fn lemma_alpha_x_42()
    ensures
        mulx_pow(alpha_spec(), 42) == alpha_x_42(),
{
    lemma_alpha_x_41();
    lemma_alpha_byte_facts();
    reveal(bytes_x_42);
    reveal(alpha_x_41);
    reveal(alpha_x_42);
    assert(mulx(alpha_x_41()) =~= alpha_x_42());
}

proof fn lemma_alpha_x_43()
    ensures
        mulx_pow(alpha_spec(), 43) == alpha_x_43(),
{
    lemma_alpha_x_42();
    lemma_alpha_byte_facts();
    reveal(bytes_x_43);
    reveal(alpha_x_42);
    reveal(alpha_x_43);
    assert(mulx(alpha_x_42()) =~= alpha_x_43());
}

proof fn lemma_alpha_x_44()
    ensures
        mulx_pow(alpha_spec(), 44) == alpha_x_44(),
{
    lemma_alpha_x_43();
    lemma_alpha_byte_facts();
    reveal(bytes_x_44);
    reveal(alpha_x_43);
    reveal(alpha_x_44);
    assert(mulx(alpha_x_43()) =~= alpha_x_44());
}

proof fn lemma_alpha_x_45()
    ensures
        mulx_pow(alpha_spec(), 45) == alpha_x_45(),
{
    lemma_alpha_x_44();
    lemma_alpha_byte_facts();
    reveal(bytes_x_45);
    reveal(alpha_x_44);
    reveal(alpha_x_45);
    assert(mulx(alpha_x_44()) =~= alpha_x_45());
}

proof fn lemma_alpha_x_46()
    ensures
        mulx_pow(alpha_spec(), 46) == alpha_x_46(),
{
    lemma_alpha_x_45();
    lemma_alpha_byte_facts();
    reveal(bytes_x_46);
    reveal(alpha_x_45);
    reveal(alpha_x_46);
    assert(mulx(alpha_x_45()) =~= alpha_x_46());
}

proof fn lemma_alpha_x_47()
    ensures
        mulx_pow(alpha_spec(), 47) == alpha_x_47(),
{
    lemma_alpha_x_46();
    lemma_alpha_byte_facts();
    reveal(bytes_x_47);
    reveal(alpha_x_46);
    reveal(alpha_x_47);
    assert(mulx(alpha_x_46()) =~= alpha_x_47());
}

proof fn lemma_alpha_x_48()
    ensures
        mulx_pow(alpha_spec(), 48) == alpha_x_48(),
{
    lemma_alpha_x_47();
    lemma_alpha_byte_facts();
    reveal(bytes_x_48);
    reveal(alpha_x_47);
    reveal(alpha_x_48);
    assert(mulx(alpha_x_47()) =~= alpha_x_48());
}

proof fn lemma_alpha_x_49()
    ensures
        mulx_pow(alpha_spec(), 49) == alpha_x_49(),
{
    lemma_alpha_x_48();
    lemma_alpha_byte_facts();
    reveal(bytes_x_49);
    reveal(alpha_x_48);
    reveal(alpha_x_49);
    assert(mulx(alpha_x_48()) =~= alpha_x_49());
}

proof fn lemma_alpha_x_50()
    ensures
        mulx_pow(alpha_spec(), 50) == alpha_x_50(),
{
    lemma_alpha_x_49();
    lemma_alpha_byte_facts();
    reveal(bytes_x_50);
    reveal(alpha_x_49);
    reveal(alpha_x_50);
    assert(mulx(alpha_x_49()) =~= alpha_x_50());
}

proof fn lemma_alpha_x_51()
    ensures
        mulx_pow(alpha_spec(), 51) == alpha_x_51(),
{
    lemma_alpha_x_50();
    lemma_alpha_byte_facts();
    reveal(bytes_x_51);
    reveal(alpha_x_50);
    reveal(alpha_x_51);
    assert(mulx(alpha_x_50()) =~= alpha_x_51());
}

proof fn lemma_alpha_x_52()
    ensures
        mulx_pow(alpha_spec(), 52) == alpha_x_52(),
{
    lemma_alpha_x_51();
    lemma_alpha_byte_facts();
    reveal(bytes_x_52);
    reveal(alpha_x_51);
    reveal(alpha_x_52);
    assert(mulx(alpha_x_51()) =~= alpha_x_52());
}

proof fn lemma_alpha_x_53()
    ensures
        mulx_pow(alpha_spec(), 53) == alpha_x_53(),
{
    lemma_alpha_x_52();
    lemma_alpha_byte_facts();
    reveal(bytes_x_53);
    reveal(alpha_x_52);
    reveal(alpha_x_53);
    assert(mulx(alpha_x_52()) =~= alpha_x_53());
}

proof fn lemma_alpha_x_54()
    ensures
        mulx_pow(alpha_spec(), 54) == alpha_x_54(),
{
    lemma_alpha_x_53();
    lemma_alpha_byte_facts();
    reveal(bytes_x_54);
    reveal(alpha_x_53);
    reveal(alpha_x_54);
    assert(mulx(alpha_x_53()) =~= alpha_x_54());
}

proof fn lemma_alpha_x_55()
    ensures
        mulx_pow(alpha_spec(), 55) == alpha_x_55(),
{
    lemma_alpha_x_54();
    lemma_alpha_byte_facts();
    reveal(bytes_x_55);
    reveal(alpha_x_54);
    reveal(alpha_x_55);
    assert(mulx(alpha_x_54()) =~= alpha_x_55());
}

proof fn lemma_alpha_x_56()
    ensures
        mulx_pow(alpha_spec(), 56) == alpha_x_56(),
{
    lemma_alpha_x_55();
    lemma_alpha_byte_facts();
    reveal(bytes_x_56);
    reveal(alpha_x_55);
    reveal(alpha_x_56);
    assert(mulx(alpha_x_55()) =~= alpha_x_56());
}

proof fn lemma_alpha_x_57()
    ensures
        mulx_pow(alpha_spec(), 57) == alpha_x_57(),
{
    lemma_alpha_x_56();
    lemma_alpha_byte_facts();
    reveal(bytes_x_57);
    reveal(alpha_x_56);
    reveal(alpha_x_57);
    assert(mulx(alpha_x_56()) =~= alpha_x_57());
}

proof fn lemma_alpha_x_58()
    ensures
        mulx_pow(alpha_spec(), 58) == alpha_x_58(),
{
    lemma_alpha_x_57();
    lemma_alpha_byte_facts();
    reveal(bytes_x_58);
    reveal(alpha_x_57);
    reveal(alpha_x_58);
    assert(mulx(alpha_x_57()) =~= alpha_x_58());
}

proof fn lemma_alpha_x_59()
    ensures
        mulx_pow(alpha_spec(), 59) == alpha_x_59(),
{
    lemma_alpha_x_58();
    lemma_alpha_byte_facts();
    reveal(bytes_x_59);
    reveal(alpha_x_58);
    reveal(alpha_x_59);
    assert(mulx(alpha_x_58()) =~= alpha_x_59());
}

proof fn lemma_alpha_x_60()
    ensures
        mulx_pow(alpha_spec(), 60) == alpha_x_60(),
{
    lemma_alpha_x_59();
    lemma_alpha_byte_facts();
    reveal(bytes_x_60);
    reveal(alpha_x_59);
    reveal(alpha_x_60);
    assert(mulx(alpha_x_59()) =~= alpha_x_60());
}

proof fn lemma_alpha_x_61()
    ensures
        mulx_pow(alpha_spec(), 61) == alpha_x_61(),
{
    lemma_alpha_x_60();
    lemma_alpha_byte_facts();
    reveal(bytes_x_61);
    reveal(alpha_x_60);
    reveal(alpha_x_61);
    assert(mulx(alpha_x_60()) =~= alpha_x_61());
}

proof fn lemma_alpha_x_62()
    ensures
        mulx_pow(alpha_spec(), 62) == alpha_x_62(),
{
    lemma_alpha_x_61();
    lemma_alpha_byte_facts();
    reveal(bytes_x_62);
    reveal(alpha_x_61);
    reveal(alpha_x_62);
    assert(mulx(alpha_x_61()) =~= alpha_x_62());
}

proof fn lemma_alpha_x_63()
    ensures
        mulx_pow(alpha_spec(), 63) == alpha_x_63(),
{
    lemma_alpha_x_62();
    lemma_alpha_byte_facts();
    reveal(bytes_x_63);
    reveal(alpha_x_62);
    reveal(alpha_x_63);
    assert(mulx(alpha_x_62()) =~= alpha_x_63());
}

proof fn lemma_alpha_x_64()
    ensures
        mulx_pow(alpha_spec(), 64) == alpha_x_64(),
{
    lemma_alpha_x_63();
    lemma_alpha_byte_facts();
    reveal(bytes_x_64);
    reveal(alpha_x_63);
    reveal(alpha_x_64);
    assert(mulx(alpha_x_63()) =~= alpha_x_64());
}

proof fn lemma_alpha_x_65()
    ensures
        mulx_pow(alpha_spec(), 65) == alpha_x_65(),
{
    lemma_alpha_x_64();
    lemma_alpha_byte_facts();
    reveal(bytes_x_65);
    reveal(alpha_x_64);
    reveal(alpha_x_65);
    assert(mulx(alpha_x_64()) =~= alpha_x_65());
}

proof fn lemma_alpha_x_66()
    ensures
        mulx_pow(alpha_spec(), 66) == alpha_x_66(),
{
    lemma_alpha_x_65();
    lemma_alpha_byte_facts();
    reveal(bytes_x_66);
    reveal(alpha_x_65);
    reveal(alpha_x_66);
    assert(mulx(alpha_x_65()) =~= alpha_x_66());
}

proof fn lemma_alpha_x_67()
    ensures
        mulx_pow(alpha_spec(), 67) == alpha_x_67(),
{
    lemma_alpha_x_66();
    lemma_alpha_byte_facts();
    reveal(bytes_x_67);
    reveal(alpha_x_66);
    reveal(alpha_x_67);
    assert(mulx(alpha_x_66()) =~= alpha_x_67());
}

proof fn lemma_alpha_x_68()
    ensures
        mulx_pow(alpha_spec(), 68) == alpha_x_68(),
{
    lemma_alpha_x_67();
    lemma_alpha_byte_facts();
    reveal(bytes_x_68);
    reveal(alpha_x_67);
    reveal(alpha_x_68);
    assert(mulx(alpha_x_67()) =~= alpha_x_68());
}

proof fn lemma_alpha_x_69()
    ensures
        mulx_pow(alpha_spec(), 69) == alpha_x_69(),
{
    lemma_alpha_x_68();
    lemma_alpha_byte_facts();
    reveal(bytes_x_69);
    reveal(alpha_x_68);
    reveal(alpha_x_69);
    assert(mulx(alpha_x_68()) =~= alpha_x_69());
}

proof fn lemma_alpha_x_70()
    ensures
        mulx_pow(alpha_spec(), 70) == alpha_x_70(),
{
    lemma_alpha_x_69();
    lemma_alpha_byte_facts();
    reveal(bytes_x_70);
    reveal(alpha_x_69);
    reveal(alpha_x_70);
    assert(mulx(alpha_x_69()) =~= alpha_x_70());
}

proof fn lemma_alpha_x_71()
    ensures
        mulx_pow(alpha_spec(), 71) == alpha_x_71(),
{
    lemma_alpha_x_70();
    lemma_alpha_byte_facts();
    reveal(bytes_x_71);
    reveal(alpha_x_70);
    reveal(alpha_x_71);
    assert(mulx(alpha_x_70()) =~= alpha_x_71());
}

proof fn lemma_alpha_x_72()
    ensures
        mulx_pow(alpha_spec(), 72) == alpha_x_72(),
{
    lemma_alpha_x_71();
    lemma_alpha_byte_facts();
    reveal(bytes_x_72);
    reveal(alpha_x_71);
    reveal(alpha_x_72);
    assert(mulx(alpha_x_71()) =~= alpha_x_72());
}

proof fn lemma_alpha_x_73()
    ensures
        mulx_pow(alpha_spec(), 73) == alpha_x_73(),
{
    lemma_alpha_x_72();
    lemma_alpha_byte_facts();
    reveal(bytes_x_73);
    reveal(alpha_x_72);
    reveal(alpha_x_73);
    assert(mulx(alpha_x_72()) =~= alpha_x_73());
}

proof fn lemma_alpha_x_74()
    ensures
        mulx_pow(alpha_spec(), 74) == alpha_x_74(),
{
    lemma_alpha_x_73();
    lemma_alpha_byte_facts();
    reveal(bytes_x_74);
    reveal(alpha_x_73);
    reveal(alpha_x_74);
    assert(mulx(alpha_x_73()) =~= alpha_x_74());
}

proof fn lemma_alpha_x_75()
    ensures
        mulx_pow(alpha_spec(), 75) == alpha_x_75(),
{
    lemma_alpha_x_74();
    lemma_alpha_byte_facts();
    reveal(bytes_x_75);
    reveal(alpha_x_74);
    reveal(alpha_x_75);
    assert(mulx(alpha_x_74()) =~= alpha_x_75());
}

proof fn lemma_alpha_x_76()
    ensures
        mulx_pow(alpha_spec(), 76) == alpha_x_76(),
{
    lemma_alpha_x_75();
    lemma_alpha_byte_facts();
    reveal(bytes_x_76);
    reveal(alpha_x_75);
    reveal(alpha_x_76);
    assert(mulx(alpha_x_75()) =~= alpha_x_76());
}

proof fn lemma_alpha_x_77()
    ensures
        mulx_pow(alpha_spec(), 77) == alpha_x_77(),
{
    lemma_alpha_x_76();
    lemma_alpha_byte_facts();
    reveal(bytes_x_77);
    reveal(alpha_x_76);
    reveal(alpha_x_77);
    assert(mulx(alpha_x_76()) =~= alpha_x_77());
}

proof fn lemma_alpha_x_78()
    ensures
        mulx_pow(alpha_spec(), 78) == alpha_x_78(),
{
    lemma_alpha_x_77();
    lemma_alpha_byte_facts();
    reveal(bytes_x_78);
    reveal(alpha_x_77);
    reveal(alpha_x_78);
    assert(mulx(alpha_x_77()) =~= alpha_x_78());
}

proof fn lemma_alpha_x_79()
    ensures
        mulx_pow(alpha_spec(), 79) == alpha_x_79(),
{
    lemma_alpha_x_78();
    lemma_alpha_byte_facts();
    reveal(bytes_x_79);
    reveal(alpha_x_78);
    reveal(alpha_x_79);
    assert(mulx(alpha_x_78()) =~= alpha_x_79());
}

proof fn lemma_alpha_x_80()
    ensures
        mulx_pow(alpha_spec(), 80) == alpha_x_80(),
{
    lemma_alpha_x_79();
    lemma_alpha_byte_facts();
    reveal(bytes_x_80);
    reveal(alpha_x_79);
    reveal(alpha_x_80);
    assert(mulx(alpha_x_79()) =~= alpha_x_80());
}

proof fn lemma_alpha_x_81()
    ensures
        mulx_pow(alpha_spec(), 81) == alpha_x_81(),
{
    lemma_alpha_x_80();
    lemma_alpha_byte_facts();
    reveal(bytes_x_81);
    reveal(alpha_x_80);
    reveal(alpha_x_81);
    assert(mulx(alpha_x_80()) =~= alpha_x_81());
}

proof fn lemma_alpha_x_82()
    ensures
        mulx_pow(alpha_spec(), 82) == alpha_x_82(),
{
    lemma_alpha_x_81();
    lemma_alpha_byte_facts();
    reveal(bytes_x_82);
    reveal(alpha_x_81);
    reveal(alpha_x_82);
    assert(mulx(alpha_x_81()) =~= alpha_x_82());
}

proof fn lemma_alpha_x_83()
    ensures
        mulx_pow(alpha_spec(), 83) == alpha_x_83(),
{
    lemma_alpha_x_82();
    lemma_alpha_byte_facts();
    reveal(bytes_x_83);
    reveal(alpha_x_82);
    reveal(alpha_x_83);
    assert(mulx(alpha_x_82()) =~= alpha_x_83());
}

proof fn lemma_alpha_x_84()
    ensures
        mulx_pow(alpha_spec(), 84) == alpha_x_84(),
{
    lemma_alpha_x_83();
    lemma_alpha_byte_facts();
    reveal(bytes_x_84);
    reveal(alpha_x_83);
    reveal(alpha_x_84);
    assert(mulx(alpha_x_83()) =~= alpha_x_84());
}

proof fn lemma_alpha_x_85()
    ensures
        mulx_pow(alpha_spec(), 85) == alpha_x_85(),
{
    lemma_alpha_x_84();
    lemma_alpha_byte_facts();
    reveal(bytes_x_85);
    reveal(alpha_x_84);
    reveal(alpha_x_85);
    assert(mulx(alpha_x_84()) =~= alpha_x_85());
}

proof fn lemma_alpha_x_86()
    ensures
        mulx_pow(alpha_spec(), 86) == alpha_x_86(),
{
    lemma_alpha_x_85();
    lemma_alpha_byte_facts();
    reveal(bytes_x_86);
    reveal(alpha_x_85);
    reveal(alpha_x_86);
    assert(mulx(alpha_x_85()) =~= alpha_x_86());
}

proof fn lemma_alpha_x_87()
    ensures
        mulx_pow(alpha_spec(), 87) == alpha_x_87(),
{
    lemma_alpha_x_86();
    lemma_alpha_byte_facts();
    reveal(bytes_x_87);
    reveal(alpha_x_86);
    reveal(alpha_x_87);
    assert(mulx(alpha_x_86()) =~= alpha_x_87());
}

proof fn lemma_alpha_x_88()
    ensures
        mulx_pow(alpha_spec(), 88) == alpha_x_88(),
{
    lemma_alpha_x_87();
    lemma_alpha_byte_facts();
    reveal(bytes_x_88);
    reveal(alpha_x_87);
    reveal(alpha_x_88);
    assert(mulx(alpha_x_87()) =~= alpha_x_88());
}

proof fn lemma_alpha_x_89()
    ensures
        mulx_pow(alpha_spec(), 89) == alpha_x_89(),
{
    lemma_alpha_x_88();
    lemma_alpha_byte_facts();
    reveal(bytes_x_89);
    reveal(alpha_x_88);
    reveal(alpha_x_89);
    assert(mulx(alpha_x_88()) =~= alpha_x_89());
}

proof fn lemma_alpha_x_90()
    ensures
        mulx_pow(alpha_spec(), 90) == alpha_x_90(),
{
    lemma_alpha_x_89();
    lemma_alpha_byte_facts();
    reveal(bytes_x_90);
    reveal(alpha_x_89);
    reveal(alpha_x_90);
    assert(mulx(alpha_x_89()) =~= alpha_x_90());
}

proof fn lemma_alpha_x_91()
    ensures
        mulx_pow(alpha_spec(), 91) == alpha_x_91(),
{
    lemma_alpha_x_90();
    lemma_alpha_byte_facts();
    reveal(bytes_x_91);
    reveal(alpha_x_90);
    reveal(alpha_x_91);
    assert(mulx(alpha_x_90()) =~= alpha_x_91());
}

proof fn lemma_alpha_x_92()
    ensures
        mulx_pow(alpha_spec(), 92) == alpha_x_92(),
{
    lemma_alpha_x_91();
    lemma_alpha_byte_facts();
    reveal(bytes_x_92);
    reveal(alpha_x_91);
    reveal(alpha_x_92);
    assert(mulx(alpha_x_91()) =~= alpha_x_92());
}

proof fn lemma_alpha_x_93()
    ensures
        mulx_pow(alpha_spec(), 93) == alpha_x_93(),
{
    lemma_alpha_x_92();
    lemma_alpha_byte_facts();
    reveal(bytes_x_93);
    reveal(alpha_x_92);
    reveal(alpha_x_93);
    assert(mulx(alpha_x_92()) =~= alpha_x_93());
}

proof fn lemma_alpha_x_94()
    ensures
        mulx_pow(alpha_spec(), 94) == alpha_x_94(),
{
    lemma_alpha_x_93();
    lemma_alpha_byte_facts();
    reveal(bytes_x_94);
    reveal(alpha_x_93);
    reveal(alpha_x_94);
    assert(mulx(alpha_x_93()) =~= alpha_x_94());
}

proof fn lemma_alpha_x_95()
    ensures
        mulx_pow(alpha_spec(), 95) == alpha_x_95(),
{
    lemma_alpha_x_94();
    lemma_alpha_byte_facts();
    reveal(bytes_x_95);
    reveal(alpha_x_94);
    reveal(alpha_x_95);
    assert(mulx(alpha_x_94()) =~= alpha_x_95());
}

proof fn lemma_alpha_x_96()
    ensures
        mulx_pow(alpha_spec(), 96) == alpha_x_96(),
{
    lemma_alpha_x_95();
    lemma_alpha_byte_facts();
    reveal(bytes_x_96);
    reveal(alpha_x_95);
    reveal(alpha_x_96);
    assert(mulx(alpha_x_95()) =~= alpha_x_96());
}

proof fn lemma_alpha_x_97()
    ensures
        mulx_pow(alpha_spec(), 97) == alpha_x_97(),
{
    lemma_alpha_x_96();
    lemma_alpha_byte_facts();
    reveal(bytes_x_97);
    reveal(alpha_x_96);
    reveal(alpha_x_97);
    assert(mulx(alpha_x_96()) =~= alpha_x_97());
}

proof fn lemma_alpha_x_98()
    ensures
        mulx_pow(alpha_spec(), 98) == alpha_x_98(),
{
    lemma_alpha_x_97();
    lemma_alpha_byte_facts();
    reveal(bytes_x_98);
    reveal(alpha_x_97);
    reveal(alpha_x_98);
    assert(mulx(alpha_x_97()) =~= alpha_x_98());
}

proof fn lemma_alpha_x_99()
    ensures
        mulx_pow(alpha_spec(), 99) == alpha_x_99(),
{
    lemma_alpha_x_98();
    lemma_alpha_byte_facts();
    reveal(bytes_x_99);
    reveal(alpha_x_98);
    reveal(alpha_x_99);
    assert(mulx(alpha_x_98()) =~= alpha_x_99());
}

proof fn lemma_alpha_x_100()
    ensures
        mulx_pow(alpha_spec(), 100) == alpha_x_100(),
{
    lemma_alpha_x_99();
    lemma_alpha_byte_facts();
    reveal(bytes_x_100);
    reveal(alpha_x_99);
    reveal(alpha_x_100);
    assert(mulx(alpha_x_99()) =~= alpha_x_100());
}

proof fn lemma_alpha_x_101()
    ensures
        mulx_pow(alpha_spec(), 101) == alpha_x_101(),
{
    lemma_alpha_x_100();
    lemma_alpha_byte_facts();
    reveal(bytes_x_101);
    reveal(alpha_x_100);
    reveal(alpha_x_101);
    assert(mulx(alpha_x_100()) =~= alpha_x_101());
}

proof fn lemma_alpha_x_102()
    ensures
        mulx_pow(alpha_spec(), 102) == alpha_x_102(),
{
    lemma_alpha_x_101();
    lemma_alpha_byte_facts();
    reveal(bytes_x_102);
    reveal(alpha_x_101);
    reveal(alpha_x_102);
    assert(mulx(alpha_x_101()) =~= alpha_x_102());
}

proof fn lemma_alpha_x_103()
    ensures
        mulx_pow(alpha_spec(), 103) == alpha_x_103(),
{
    lemma_alpha_x_102();
    lemma_alpha_byte_facts();
    reveal(bytes_x_103);
    reveal(alpha_x_102);
    reveal(alpha_x_103);
    assert(mulx(alpha_x_102()) =~= alpha_x_103());
}

proof fn lemma_alpha_x_104()
    ensures
        mulx_pow(alpha_spec(), 104) == alpha_x_104(),
{
    lemma_alpha_x_103();
    lemma_alpha_byte_facts();
    reveal(bytes_x_104);
    reveal(alpha_x_103);
    reveal(alpha_x_104);
    assert(mulx(alpha_x_103()) =~= alpha_x_104());
}

proof fn lemma_alpha_x_105()
    ensures
        mulx_pow(alpha_spec(), 105) == alpha_x_105(),
{
    lemma_alpha_x_104();
    lemma_alpha_byte_facts();
    reveal(bytes_x_105);
    reveal(alpha_x_104);
    reveal(alpha_x_105);
    assert(mulx(alpha_x_104()) =~= alpha_x_105());
}

proof fn lemma_alpha_x_106()
    ensures
        mulx_pow(alpha_spec(), 106) == alpha_x_106(),
{
    lemma_alpha_x_105();
    lemma_alpha_byte_facts();
    reveal(bytes_x_106);
    reveal(alpha_x_105);
    reveal(alpha_x_106);
    assert(mulx(alpha_x_105()) =~= alpha_x_106());
}

proof fn lemma_alpha_x_107()
    ensures
        mulx_pow(alpha_spec(), 107) == alpha_x_107(),
{
    lemma_alpha_x_106();
    lemma_alpha_byte_facts();
    reveal(bytes_x_107);
    reveal(alpha_x_106);
    reveal(alpha_x_107);
    assert(mulx(alpha_x_106()) =~= alpha_x_107());
}

proof fn lemma_alpha_x_108()
    ensures
        mulx_pow(alpha_spec(), 108) == alpha_x_108(),
{
    lemma_alpha_x_107();
    lemma_alpha_byte_facts();
    reveal(bytes_x_108);
    reveal(alpha_x_107);
    reveal(alpha_x_108);
    assert(mulx(alpha_x_107()) =~= alpha_x_108());
}

proof fn lemma_alpha_x_109()
    ensures
        mulx_pow(alpha_spec(), 109) == alpha_x_109(),
{
    lemma_alpha_x_108();
    lemma_alpha_byte_facts();
    reveal(bytes_x_109);
    reveal(alpha_x_108);
    reveal(alpha_x_109);
    assert(mulx(alpha_x_108()) =~= alpha_x_109());
}

proof fn lemma_alpha_x_110()
    ensures
        mulx_pow(alpha_spec(), 110) == alpha_x_110(),
{
    lemma_alpha_x_109();
    lemma_alpha_byte_facts();
    reveal(bytes_x_110);
    reveal(alpha_x_109);
    reveal(alpha_x_110);
    assert(mulx(alpha_x_109()) =~= alpha_x_110());
}

proof fn lemma_alpha_x_111()
    ensures
        mulx_pow(alpha_spec(), 111) == alpha_x_111(),
{
    lemma_alpha_x_110();
    lemma_alpha_byte_facts();
    reveal(bytes_x_111);
    reveal(alpha_x_110);
    reveal(alpha_x_111);
    assert(mulx(alpha_x_110()) =~= alpha_x_111());
}

proof fn lemma_alpha_x_112()
    ensures
        mulx_pow(alpha_spec(), 112) == alpha_x_112(),
{
    lemma_alpha_x_111();
    lemma_alpha_byte_facts();
    reveal(bytes_x_112);
    reveal(alpha_x_111);
    reveal(alpha_x_112);
    assert(mulx(alpha_x_111()) =~= alpha_x_112());
}

proof fn lemma_alpha_x_113()
    ensures
        mulx_pow(alpha_spec(), 113) == alpha_x_113(),
{
    lemma_alpha_x_112();
    lemma_alpha_byte_facts();
    reveal(bytes_x_113);
    reveal(alpha_x_112);
    reveal(alpha_x_113);
    assert(mulx(alpha_x_112()) =~= alpha_x_113());
}

proof fn lemma_alpha_x_114()
    ensures
        mulx_pow(alpha_spec(), 114) == alpha_x_114(),
{
    lemma_alpha_x_113();
    lemma_alpha_byte_facts();
    reveal(bytes_x_114);
    reveal(alpha_x_113);
    reveal(alpha_x_114);
    assert(mulx(alpha_x_113()) =~= alpha_x_114());
}

proof fn lemma_alpha_x_115()
    ensures
        mulx_pow(alpha_spec(), 115) == alpha_x_115(),
{
    lemma_alpha_x_114();
    lemma_alpha_byte_facts();
    reveal(bytes_x_115);
    reveal(alpha_x_114);
    reveal(alpha_x_115);
    assert(mulx(alpha_x_114()) =~= alpha_x_115());
}

proof fn lemma_alpha_x_116()
    ensures
        mulx_pow(alpha_spec(), 116) == alpha_x_116(),
{
    lemma_alpha_x_115();
    lemma_alpha_byte_facts();
    reveal(bytes_x_116);
    reveal(alpha_x_115);
    reveal(alpha_x_116);
    assert(mulx(alpha_x_115()) =~= alpha_x_116());
}

proof fn lemma_alpha_x_117()
    ensures
        mulx_pow(alpha_spec(), 117) == alpha_x_117(),
{
    lemma_alpha_x_116();
    lemma_alpha_byte_facts();
    reveal(bytes_x_117);
    reveal(alpha_x_116);
    reveal(alpha_x_117);
    assert(mulx(alpha_x_116()) =~= alpha_x_117());
}

proof fn lemma_alpha_x_118()
    ensures
        mulx_pow(alpha_spec(), 118) == alpha_x_118(),
{
    lemma_alpha_x_117();
    lemma_alpha_byte_facts();
    reveal(bytes_x_118);
    reveal(alpha_x_117);
    reveal(alpha_x_118);
    assert(mulx(alpha_x_117()) =~= alpha_x_118());
}

proof fn lemma_alpha_x_119()
    ensures
        mulx_pow(alpha_spec(), 119) == alpha_x_119(),
{
    lemma_alpha_x_118();
    lemma_alpha_byte_facts();
    reveal(bytes_x_119);
    reveal(alpha_x_118);
    reveal(alpha_x_119);
    assert(mulx(alpha_x_118()) =~= alpha_x_119());
}

proof fn lemma_alpha_x_120()
    ensures
        mulx_pow(alpha_spec(), 120) == alpha_x_120(),
{
    lemma_alpha_x_119();
    lemma_alpha_byte_facts();
    reveal(bytes_x_120);
    reveal(alpha_x_119);
    reveal(alpha_x_120);
    assert(mulx(alpha_x_119()) =~= alpha_x_120());
}

proof fn lemma_alpha_x_121()
    ensures
        mulx_pow(alpha_spec(), 121) == alpha_x_121(),
{
    lemma_alpha_x_120();
    lemma_alpha_byte_facts();
    reveal(bytes_x_121);
    reveal(alpha_x_120);
    reveal(alpha_x_121);
    assert(mulx(alpha_x_120()) =~= alpha_x_121());
}

proof fn lemma_alpha_x_122()
    ensures
        mulx_pow(alpha_spec(), 122) == alpha_x_122(),
{
    lemma_alpha_x_121();
    lemma_alpha_byte_facts();
    reveal(bytes_x_122);
    reveal(alpha_x_121);
    reveal(alpha_x_122);
    assert(mulx(alpha_x_121()) =~= alpha_x_122());
}

proof fn lemma_alpha_x_123()
    ensures
        mulx_pow(alpha_spec(), 123) == alpha_x_123(),
{
    lemma_alpha_x_122();
    lemma_alpha_byte_facts();
    reveal(bytes_x_123);
    reveal(alpha_x_122);
    reveal(alpha_x_123);
    assert(mulx(alpha_x_122()) =~= alpha_x_123());
}

proof fn lemma_alpha_x_124()
    ensures
        mulx_pow(alpha_spec(), 124) == alpha_x_124(),
{
    lemma_alpha_x_123();
    lemma_alpha_byte_facts();
    reveal(bytes_x_124);
    reveal(alpha_x_123);
    reveal(alpha_x_124);
    assert(mulx(alpha_x_123()) =~= alpha_x_124());
}

proof fn lemma_alpha_x_125()
    ensures
        mulx_pow(alpha_spec(), 125) == alpha_x_125(),
{
    lemma_alpha_x_124();
    lemma_alpha_byte_facts();
    reveal(bytes_x_125);
    reveal(alpha_x_124);
    reveal(alpha_x_125);
    assert(mulx(alpha_x_124()) =~= alpha_x_125());
}

proof fn lemma_alpha_x_126()
    ensures
        mulx_pow(alpha_spec(), 126) == alpha_x_126(),
{
    lemma_alpha_x_125();
    lemma_alpha_byte_facts();
    reveal(bytes_x_126);
    reveal(alpha_x_125);
    reveal(alpha_x_126);
    assert(mulx(alpha_x_125()) =~= alpha_x_126());
}

proof fn lemma_alpha_x_127()
    ensures
        mulx_pow(alpha_spec(), 127) == alpha_x_127(),
{
    lemma_alpha_x_126();
    lemma_alpha_byte_facts();
    reveal(bytes_x_127);
    reveal(alpha_x_126);
    reveal(alpha_x_127);
    assert(mulx(alpha_x_126()) =~= alpha_x_127());
}

#[verifier::opaque]
spec fn acc_1_0() -> Seq<u8> {
    seq![0u8, 0u8, 0u8, 0u8, 0u8, 0u8, 0u8, 0u8, 0u8, 0u8, 0u8, 0u8, 0u8, 0u8, 0u8, 0u8]
}

#[verifier::opaque]
spec fn acc_1_1() -> Seq<u8> {
    seq![13u8, 206u8, 96u8, 85u8, 172u8, 232u8, 63u8, 161u8, 28u8, 154u8, 151u8, 169u8, 85u8, 133u8, 61u8, 5u8]
}

#[verifier::opaque]
spec fn acc_1_2() -> Seq<u8> {
    seq![13u8, 206u8, 96u8, 85u8, 172u8, 232u8, 63u8, 161u8, 28u8, 154u8, 151u8, 169u8, 85u8, 133u8, 61u8, 5u8]
}

#[verifier::opaque]
spec fn acc_1_3() -> Seq<u8> {
    seq![57u8, 246u8, 227u8, 0u8, 29u8, 74u8, 192u8, 37u8, 110u8, 242u8, 201u8, 15u8, 3u8, 144u8, 203u8, 17u8]
}

#[verifier::opaque]
spec fn acc_1_4() -> Seq<u8> {
    seq![81u8, 134u8, 229u8, 171u8, 127u8, 15u8, 63u8, 44u8, 139u8, 34u8, 117u8, 67u8, 174u8, 186u8, 39u8, 56u8]
}

#[verifier::opaque]
spec fn acc_1_5() -> Seq<u8> {
    seq![81u8, 134u8, 229u8, 171u8, 127u8, 15u8, 63u8, 44u8, 139u8, 34u8, 117u8, 67u8, 174u8, 186u8, 39u8, 56u8]
}

#[verifier::opaque]
spec fn acc_1_6() -> Seq<u8> {
    seq![81u8, 134u8, 229u8, 171u8, 127u8, 15u8, 63u8, 44u8, 139u8, 34u8, 117u8, 67u8, 174u8, 186u8, 39u8, 56u8]
}

#[verifier::opaque]
spec fn acc_1_7() -> Seq<u8> {
    seq![81u8, 134u8, 229u8, 171u8, 127u8, 15u8, 63u8, 44u8, 139u8, 34u8, 117u8, 67u8, 174u8, 186u8, 39u8, 56u8]
}

#[verifier::opaque]
spec fn acc_1_8() -> Seq<u8> {
    seq![81u8, 134u8, 229u8, 171u8, 127u8, 15u8, 63u8, 44u8, 139u8, 34u8, 117u8, 67u8, 174u8, 186u8, 39u8, 56u8]
}

#[verifier::opaque]
spec fn acc_1_9() -> Seq<u8> {
    seq![81u8, 134u8, 229u8, 171u8, 127u8, 15u8, 63u8, 44u8, 139u8, 34u8, 117u8, 67u8, 174u8, 186u8, 39u8, 56u8]
}

#[verifier::opaque]
spec fn acc_1_10() -> Seq<u8> {
    seq![103u8, 153u8, 121u8, 106u8, 213u8, 87u8, 238u8, 83u8, 201u8, 27u8, 65u8, 108u8, 253u8, 17u8, 45u8, 67u8]
}

#[verifier::opaque]
spec fn acc_1_11() -> Seq<u8> {
    seq![11u8, 167u8, 65u8, 233u8, 128u8, 230u8, 76u8, 172u8, 77u8, 105u8, 41u8, 50u8, 91u8, 71u8, 56u8, 181u8]
}

#[verifier::opaque]
spec fn acc_1_12() -> Seq<u8> {
    seq![84u8, 219u8, 49u8, 239u8, 43u8, 132u8, 9u8, 83u8, 68u8, 140u8, 249u8, 142u8, 23u8, 234u8, 18u8, 89u8]
}

#[verifier::opaque]
spec fn acc_1_13() -> Seq<u8> {
    seq![84u8, 219u8, 49u8, 239u8, 43u8, 132u8, 9u8, 83u8, 68u8, 140u8, 249u8, 142u8, 23u8, 234u8, 18u8, 89u8]
}

#[verifier::opaque]
spec fn acc_1_14() -> Seq<u8> {
    seq![84u8, 219u8, 49u8, 239u8, 43u8, 132u8, 9u8, 83u8, 68u8, 140u8, 249u8, 142u8, 23u8, 234u8, 18u8, 89u8]
}

#[verifier::opaque]
spec fn acc_1_15() -> Seq<u8> {
    seq![57u8, 58u8, 178u8, 220u8, 115u8, 145u8, 34u8, 169u8, 11u8, 164u8, 126u8, 104u8, 114u8, 128u8, 71u8, 56u8]
}

#[verifier::opaque]
spec fn acc_1_16() -> Seq<u8> {
    seq![227u8, 248u8, 181u8, 187u8, 195u8, 187u8, 116u8, 93u8, 148u8, 244u8, 112u8, 165u8, 185u8, 84u8, 237u8, 250u8]
}

#[verifier::opaque]
spec fn acc_1_17() -> Seq<u8> {
    seq![227u8, 248u8, 181u8, 187u8, 195u8, 187u8, 116u8, 93u8, 148u8, 244u8, 112u8, 165u8, 185u8, 84u8, 237u8, 250u8]
}

#[verifier::opaque]
spec fn acc_1_18() -> Seq<u8> {
    seq![227u8, 248u8, 181u8, 187u8, 195u8, 187u8, 116u8, 93u8, 148u8, 244u8, 112u8, 165u8, 185u8, 84u8, 237u8, 250u8]
}

#[verifier::opaque]
spec fn acc_1_19() -> Seq<u8> {
    seq![227u8, 248u8, 181u8, 187u8, 195u8, 187u8, 116u8, 93u8, 148u8, 244u8, 112u8, 165u8, 185u8, 84u8, 237u8, 250u8]
}

#[verifier::opaque]
spec fn acc_1_20() -> Seq<u8> {
    seq![227u8, 248u8, 181u8, 187u8, 195u8, 187u8, 116u8, 93u8, 148u8, 244u8, 112u8, 165u8, 185u8, 84u8, 237u8, 250u8]
}

#[verifier::opaque]
spec fn acc_1_21() -> Seq<u8> {
    seq![227u8, 248u8, 181u8, 187u8, 195u8, 187u8, 116u8, 93u8, 148u8, 244u8, 112u8, 165u8, 185u8, 84u8, 237u8, 250u8]
}

#[verifier::opaque]
spec fn acc_1_22() -> Seq<u8> {
    seq![243u8, 86u8, 69u8, 122u8, 218u8, 23u8, 254u8, 72u8, 105u8, 211u8, 228u8, 230u8, 74u8, 102u8, 88u8, 80u8]
}

#[verifier::opaque]
spec fn acc_1_23() -> Seq<u8> {
    seq![84u8, 10u8, 164u8, 249u8, 233u8, 79u8, 235u8, 99u8, 147u8, 156u8, 204u8, 97u8, 172u8, 3u8, 50u8, 5u8]
}

#[verifier::opaque]
spec fn acc_1_24() -> Seq<u8> {
    seq![84u8, 10u8, 164u8, 249u8, 233u8, 79u8, 235u8, 99u8, 147u8, 156u8, 204u8, 97u8, 172u8, 3u8, 50u8, 5u8]
}

#[verifier::opaque]
spec fn acc_1_25() -> Seq<u8> {
    seq![79u8, 120u8, 33u8, 246u8, 39u8, 47u8, 190u8, 207u8, 123u8, 163u8, 109u8, 125u8, 54u8, 148u8, 155u8, 80u8]
}

#[verifier::opaque]
spec fn acc_1_26() -> Seq<u8> {
    seq![79u8, 120u8, 33u8, 246u8, 39u8, 47u8, 190u8, 207u8, 123u8, 163u8, 109u8, 125u8, 54u8, 148u8, 155u8, 80u8]
}

#[verifier::opaque]
spec fn acc_1_27() -> Seq<u8> {
    seq![164u8, 176u8, 52u8, 200u8, 31u8, 172u8, 235u8, 126u8, 217u8, 92u8, 233u8, 15u8, 94u8, 202u8, 61u8, 6u8]
}

#[verifier::opaque]
spec fn acc_1_28() -> Seq<u8> {
    seq![164u8, 176u8, 52u8, 200u8, 31u8, 172u8, 235u8, 126u8, 217u8, 92u8, 233u8, 15u8, 94u8, 202u8, 61u8, 6u8]
}

#[verifier::opaque]
spec fn acc_1_29() -> Seq<u8> {
    seq![143u8, 147u8, 99u8, 48u8, 255u8, 160u8, 189u8, 187u8, 83u8, 162u8, 250u8, 197u8, 255u8, 179u8, 164u8, 92u8]
}

#[verifier::opaque]
spec fn acc_1_30() -> Seq<u8> {
    seq![143u8, 147u8, 99u8, 48u8, 255u8, 160u8, 189u8, 187u8, 83u8, 162u8, 250u8, 197u8, 255u8, 179u8, 164u8, 92u8]
}

#[verifier::opaque]
spec fn acc_1_31() -> Seq<u8> {
    seq![164u8, 31u8, 63u8, 209u8, 124u8, 147u8, 229u8, 174u8, 120u8, 88u8, 181u8, 237u8, 120u8, 85u8, 193u8, 54u8]
}

#[verifier::opaque]
spec fn acc_1_32() -> Seq<u8> {
    seq![164u8, 31u8, 63u8, 209u8, 124u8, 147u8, 229u8, 174u8, 120u8, 88u8, 181u8, 237u8, 120u8, 85u8, 193u8, 54u8]
}

#[verifier::opaque]
spec fn acc_1_33() -> Seq<u8> {
    seq![164u8, 31u8, 63u8, 209u8, 124u8, 147u8, 229u8, 174u8, 120u8, 88u8, 181u8, 237u8, 120u8, 85u8, 193u8, 54u8]
}

#[verifier::opaque]
spec fn acc_1_34() -> Seq<u8> {
    seq![164u8, 31u8, 63u8, 209u8, 124u8, 147u8, 229u8, 174u8, 120u8, 88u8, 181u8, 237u8, 120u8, 85u8, 193u8, 54u8]
}

#[verifier::opaque]
spec fn acc_1_35() -> Seq<u8> {
    seq![6u8, 222u8, 247u8, 196u8, 66u8, 171u8, 102u8, 251u8, 201u8, 250u8, 74u8, 105u8, 10u8, 61u8, 159u8, 144u8]
}

#[verifier::opaque]
spec fn acc_1_36() -> Seq<u8> {
    seq![197u8, 93u8, 102u8, 239u8, 62u8, 219u8, 96u8, 80u8, 171u8, 191u8, 181u8, 96u8, 239u8, 237u8, 35u8, 220u8]
}

#[verifier::opaque]
spec fn acc_1_37() -> Seq<u8> {
    seq![197u8, 93u8, 102u8, 239u8, 62u8, 219u8, 96u8, 80u8, 171u8, 191u8, 181u8, 96u8, 239u8, 237u8, 35u8, 220u8]
}

#[verifier::opaque]
spec fn acc_1_38() -> Seq<u8> {
    seq![78u8, 82u8, 32u8, 65u8, 206u8, 26u8, 121u8, 252u8, 33u8, 170u8, 72u8, 71u8, 123u8, 174u8, 208u8, 238u8]
}

#[verifier::opaque]
spec fn acc_1_39() -> Seq<u8> {
    seq![78u8, 82u8, 32u8, 65u8, 206u8, 26u8, 121u8, 252u8, 33u8, 170u8, 72u8, 71u8, 123u8, 174u8, 208u8, 238u8]
}

#[verifier::opaque]
spec fn acc_1_40() -> Seq<u8> {
    seq![98u8, 108u8, 56u8, 248u8, 12u8, 29u8, 30u8, 76u8, 11u8, 252u8, 188u8, 216u8, 43u8, 160u8, 29u8, 37u8]
}

#[verifier::opaque]
spec fn acc_1_41() -> Seq<u8> {
    seq![98u8, 108u8, 56u8, 248u8, 12u8, 29u8, 30u8, 76u8, 11u8, 252u8, 188u8, 216u8, 43u8, 160u8, 29u8, 37u8]
}

#[verifier::opaque]
spec fn acc_1_42() -> Seq<u8> {
    seq![98u8, 108u8, 56u8, 248u8, 12u8, 29u8, 30u8, 76u8, 11u8, 252u8, 188u8, 216u8, 43u8, 160u8, 29u8, 37u8]
}

#[verifier::opaque]
spec fn acc_1_43() -> Seq<u8> {
    seq![98u8, 108u8, 56u8, 248u8, 12u8, 29u8, 30u8, 76u8, 11u8, 252u8, 188u8, 216u8, 43u8, 160u8, 29u8, 37u8]
}

#[verifier::opaque]
spec fn acc_1_44() -> Seq<u8> {
    seq![134u8, 136u8, 187u8, 105u8, 39u8, 97u8, 110u8, 74u8, 160u8, 158u8, 249u8, 39u8, 34u8, 69u8, 205u8, 153u8]
}

#[verifier::opaque]
spec fn acc_1_45() -> Seq<u8> {
    seq![134u8, 136u8, 187u8, 105u8, 39u8, 97u8, 110u8, 74u8, 160u8, 158u8, 249u8, 39u8, 34u8, 69u8, 205u8, 153u8]
}

#[verifier::opaque]
spec fn acc_1_46() -> Seq<u8> {
    seq![24u8, 26u8, 180u8, 47u8, 137u8, 145u8, 175u8, 83u8, 12u8, 20u8, 236u8, 218u8, 5u8, 209u8, 142u8, 106u8]
}

#[verifier::opaque]
spec fn acc_1_47() -> Seq<u8> {
    seq![163u8, 63u8, 171u8, 163u8, 213u8, 112u8, 44u8, 96u8, 84u8, 1u8, 199u8, 32u8, 74u8, 249u8, 9u8, 140u8]
}

#[verifier::opaque]
spec fn acc_1_48() -> Seq<u8> {
    seq![82u8, 116u8, 149u8, 187u8, 108u8, 178u8, 43u8, 7u8, 228u8, 43u8, 145u8, 212u8, 213u8, 169u8, 7u8, 65u8]
}

#[verifier::opaque]
spec fn acc_1_49() -> Seq<u8> {
    seq![55u8, 227u8, 233u8, 139u8, 30u8, 55u8, 36u8, 201u8, 132u8, 126u8, 61u8, 60u8, 234u8, 8u8, 27u8, 219u8]
}

#[verifier::opaque]
spec fn acc_1_50() -> Seq<u8> {
    seq![122u8, 205u8, 16u8, 235u8, 250u8, 61u8, 59u8, 85u8, 69u8, 212u8, 101u8, 237u8, 149u8, 74u8, 34u8, 239u8]
}

#[verifier::opaque]
spec fn acc_1_51() -> Seq<u8> {
    seq![224u8, 145u8, 226u8, 42u8, 50u8, 40u8, 5u8, 109u8, 198u8, 129u8, 212u8, 79u8, 106u8, 206u8, 80u8, 135u8]
}

#[verifier::opaque]
spec fn acc_1_52() -> Seq<u8> {
    seq![212u8, 40u8, 6u8, 169u8, 163u8, 3u8, 121u8, 29u8, 192u8, 42u8, 182u8, 10u8, 149u8, 199u8, 181u8, 87u8]
}

#[verifier::opaque]
spec fn acc_1_53() -> Seq<u8> {
    seq![59u8, 90u8, 207u8, 174u8, 128u8, 84u8, 129u8, 253u8, 204u8, 124u8, 115u8, 128u8, 107u8, 212u8, 127u8, 246u8]
}

#[verifier::opaque]
spec fn acc_1_54() -> Seq<u8> {
    seq![98u8, 191u8, 93u8, 161u8, 198u8, 250u8, 113u8, 60u8, 213u8, 208u8, 249u8, 149u8, 150u8, 243u8, 235u8, 181u8]
}

#[verifier::opaque]
spec fn acc_1_55() -> Seq<u8> {
    seq![98u8, 191u8, 93u8, 161u8, 198u8, 250u8, 113u8, 60u8, 213u8, 208u8, 249u8, 149u8, 150u8, 243u8, 235u8, 181u8]
}

#[verifier::opaque]
spec fn acc_1_56() -> Seq<u8> {
    seq![98u8, 191u8, 93u8, 161u8, 198u8, 250u8, 113u8, 60u8, 213u8, 208u8, 249u8, 149u8, 150u8, 243u8, 235u8, 181u8]
}

#[verifier::opaque]
spec fn acc_1_57() -> Seq<u8> {
    seq![164u8, 148u8, 202u8, 221u8, 246u8, 136u8, 244u8, 51u8, 27u8, 176u8, 172u8, 57u8, 126u8, 204u8, 74u8, 169u8]
}

#[verifier::opaque]
spec fn acc_1_58() -> Seq<u8> {
    seq![164u8, 148u8, 202u8, 221u8, 246u8, 136u8, 244u8, 51u8, 27u8, 176u8, 172u8, 57u8, 126u8, 204u8, 74u8, 169u8]
}

#[verifier::opaque]
spec fn acc_1_59() -> Seq<u8> {
    seq![164u8, 148u8, 202u8, 221u8, 246u8, 136u8, 244u8, 51u8, 27u8, 176u8, 172u8, 57u8, 126u8, 204u8, 74u8, 169u8]
}

#[verifier::opaque]
spec fn acc_1_60() -> Seq<u8> {
    seq![164u8, 148u8, 202u8, 221u8, 246u8, 136u8, 244u8, 51u8, 27u8, 176u8, 172u8, 57u8, 126u8, 204u8, 74u8, 169u8]
}

#[verifier::opaque]
spec fn acc_1_61() -> Seq<u8> {
    seq![164u8, 148u8, 202u8, 221u8, 246u8, 136u8, 244u8, 51u8, 27u8, 176u8, 172u8, 57u8, 126u8, 204u8, 74u8, 169u8]
}

#[verifier::opaque]
spec fn acc_1_62() -> Seq<u8> {
    seq![237u8, 237u8, 47u8, 79u8, 249u8, 206u8, 90u8, 195u8, 218u8, 169u8, 0u8, 179u8, 107u8, 49u8, 109u8, 61u8]
}

#[verifier::opaque]
spec fn acc_1_63() -> Seq<u8> {
    seq![237u8, 237u8, 47u8, 79u8, 249u8, 206u8, 90u8, 195u8, 218u8, 169u8, 0u8, 179u8, 107u8, 49u8, 109u8, 61u8]
}

#[verifier::opaque]
spec fn acc_1_64() -> Seq<u8> {
    seq![199u8, 9u8, 186u8, 4u8, 199u8, 214u8, 227u8, 1u8, 221u8, 206u8, 176u8, 153u8, 61u8, 197u8, 242u8, 109u8]
}

#[verifier::opaque]
spec fn acc_1_65() -> Seq<u8> {
    seq![199u8, 9u8, 186u8, 4u8, 199u8, 214u8, 227u8, 1u8, 221u8, 206u8, 176u8, 153u8, 61u8, 197u8, 242u8, 109u8]
}

#[verifier::opaque]
spec fn acc_1_66() -> Seq<u8> {
    seq![199u8, 9u8, 186u8, 4u8, 199u8, 214u8, 227u8, 1u8, 221u8, 206u8, 176u8, 153u8, 61u8, 197u8, 242u8, 109u8]
}

#[verifier::opaque]
spec fn acc_1_67() -> Seq<u8> {
    seq![153u8, 41u8, 21u8, 88u8, 53u8, 23u8, 43u8, 20u8, 227u8, 246u8, 51u8, 204u8, 140u8, 103u8, 13u8, 233u8]
}

#[verifier::opaque]
spec fn acc_1_68() -> Seq<u8> {
    seq![162u8, 105u8, 75u8, 225u8, 209u8, 148u8, 186u8, 63u8, 159u8, 134u8, 53u8, 103u8, 238u8, 34u8, 242u8, 224u8]
}

#[verifier::opaque]
spec fn acc_1_69() -> Seq<u8> {
    seq![212u8, 233u8, 247u8, 147u8, 24u8, 147u8, 153u8, 104u8, 103u8, 102u8, 57u8, 49u8, 43u8, 168u8, 12u8, 243u8]
}

#[verifier::opaque]
spec fn acc_1_70() -> Seq<u8> {
    seq![212u8, 233u8, 247u8, 147u8, 24u8, 147u8, 153u8, 104u8, 103u8, 102u8, 57u8, 49u8, 43u8, 168u8, 12u8, 243u8]
}

#[verifier::opaque]
spec fn acc_1_71() -> Seq<u8> {
    seq![212u8, 233u8, 247u8, 147u8, 24u8, 147u8, 153u8, 104u8, 103u8, 102u8, 57u8, 49u8, 43u8, 168u8, 12u8, 243u8]
}

#[verifier::opaque]
spec fn acc_1_72() -> Seq<u8> {
    seq![212u8, 233u8, 247u8, 147u8, 24u8, 147u8, 153u8, 104u8, 103u8, 102u8, 57u8, 49u8, 43u8, 168u8, 12u8, 243u8]
}

#[verifier::opaque]
spec fn acc_1_73() -> Seq<u8> {
    seq![212u8, 233u8, 247u8, 147u8, 24u8, 147u8, 153u8, 104u8, 103u8, 102u8, 57u8, 49u8, 43u8, 168u8, 12u8, 243u8]
}

#[verifier::opaque]
spec fn acc_1_74() -> Seq<u8> {
    seq![26u8, 230u8, 103u8, 196u8, 54u8, 106u8, 249u8, 140u8, 109u8, 121u8, 165u8, 240u8, 129u8, 240u8, 221u8, 140u8]
}

#[verifier::opaque]
spec fn acc_1_75() -> Seq<u8> {
    seq![26u8, 230u8, 103u8, 196u8, 54u8, 106u8, 249u8, 140u8, 109u8, 121u8, 165u8, 240u8, 129u8, 240u8, 221u8, 140u8]
}

#[verifier::opaque]
spec fn acc_1_76() -> Seq<u8> {
    seq![165u8, 217u8, 39u8, 154u8, 143u8, 142u8, 122u8, 29u8, 70u8, 5u8, 213u8, 246u8, 42u8, 146u8, 152u8, 115u8]
}

#[verifier::opaque]
spec fn acc_1_77() -> Seq<u8> {
    seq![92u8, 166u8, 167u8, 38u8, 253u8, 71u8, 125u8, 62u8, 17u8, 253u8, 53u8, 250u8, 124u8, 87u8, 18u8, 141u8]
}

#[verifier::opaque]
spec fn acc_1_78() -> Seq<u8> {
    seq![92u8, 166u8, 167u8, 38u8, 253u8, 71u8, 125u8, 62u8, 17u8, 253u8, 53u8, 250u8, 124u8, 87u8, 18u8, 141u8]
}

#[verifier::opaque]
spec fn acc_1_79() -> Seq<u8> {
    seq![92u8, 166u8, 167u8, 38u8, 253u8, 71u8, 125u8, 62u8, 17u8, 253u8, 53u8, 250u8, 124u8, 87u8, 18u8, 141u8]
}

#[verifier::opaque]
spec fn acc_1_80() -> Seq<u8> {
    seq![1u8, 90u8, 164u8, 194u8, 104u8, 12u8, 67u8, 38u8, 168u8, 63u8, 50u8, 157u8, 204u8, 125u8, 68u8, 121u8]
}

#[verifier::opaque]
spec fn acc_1_81() -> Seq<u8> {
    seq![60u8, 162u8, 163u8, 10u8, 67u8, 155u8, 63u8, 22u8, 218u8, 186u8, 61u8, 83u8, 172u8, 40u8, 232u8, 145u8]
}

#[verifier::opaque]
spec fn acc_1_82() -> Seq<u8> {
    seq![193u8, 82u8, 172u8, 154u8, 20u8, 181u8, 198u8, 118u8, 62u8, 176u8, 34u8, 207u8, 109u8, 130u8, 176u8, 64u8]
}

#[verifier::opaque]
spec fn acc_1_83() -> Seq<u8> {
    seq![188u8, 179u8, 179u8, 186u8, 187u8, 233u8, 52u8, 183u8, 246u8, 165u8, 28u8, 247u8, 238u8, 215u8, 1u8, 226u8]
}

#[verifier::opaque]
spec fn acc_1_84() -> Seq<u8> {
    seq![188u8, 179u8, 179u8, 186u8, 187u8, 233u8, 52u8, 183u8, 246u8, 165u8, 28u8, 247u8, 238u8, 215u8, 1u8, 226u8]
}

#[verifier::opaque]
spec fn acc_1_85() -> Seq<u8> {
    seq![70u8, 55u8, 204u8, 58u8, 7u8, 155u8, 253u8, 176u8, 213u8, 242u8, 228u8, 23u8, 226u8, 129u8, 196u8, 104u8]
}

#[verifier::opaque]
spec fn acc_1_86() -> Seq<u8> {
    seq![70u8, 55u8, 204u8, 58u8, 7u8, 155u8, 253u8, 176u8, 213u8, 242u8, 228u8, 23u8, 226u8, 129u8, 196u8, 104u8]
}

#[verifier::opaque]
spec fn acc_1_87() -> Seq<u8> {
    seq![70u8, 55u8, 204u8, 58u8, 7u8, 155u8, 253u8, 176u8, 213u8, 242u8, 228u8, 23u8, 226u8, 129u8, 196u8, 104u8]
}

#[verifier::opaque]
spec fn acc_1_88() -> Seq<u8> {
    seq![138u8, 18u8, 48u8, 57u8, 227u8, 14u8, 182u8, 142u8, 205u8, 75u8, 38u8, 16u8, 133u8, 49u8, 238u8, 62u8]
}

#[verifier::opaque]
spec fn acc_1_89() -> Seq<u8> {
    seq![18u8, 89u8, 200u8, 62u8, 43u8, 37u8, 33u8, 242u8, 253u8, 57u8, 163u8, 31u8, 75u8, 81u8, 187u8, 146u8]
}

#[verifier::opaque]
spec fn acc_1_90() -> Seq<u8> {
    seq![18u8, 89u8, 200u8, 62u8, 43u8, 37u8, 33u8, 242u8, 253u8, 57u8, 163u8, 31u8, 75u8, 81u8, 187u8, 146u8]
}

#[verifier::opaque]
spec fn acc_1_91() -> Seq<u8> {
    seq![18u8, 89u8, 200u8, 62u8, 43u8, 37u8, 33u8, 242u8, 253u8, 57u8, 163u8, 31u8, 75u8, 81u8, 187u8, 146u8]
}

#[verifier::opaque]
spec fn acc_1_92() -> Seq<u8> {
    seq![73u8, 7u8, 10u8, 1u8, 107u8, 123u8, 152u8, 22u8, 126u8, 168u8, 136u8, 99u8, 59u8, 87u8, 16u8, 240u8]
}

#[verifier::opaque]
spec fn acc_1_93() -> Seq<u8> {
    seq![73u8, 7u8, 10u8, 1u8, 107u8, 123u8, 152u8, 22u8, 126u8, 168u8, 136u8, 99u8, 59u8, 87u8, 16u8, 240u8]
}

#[verifier::opaque]
spec fn acc_1_94() -> Seq<u8> {
    seq![162u8, 126u8, 3u8, 254u8, 107u8, 2u8, 125u8, 132u8, 113u8, 238u8, 38u8, 147u8, 250u8, 78u8, 188u8, 122u8]
}

#[verifier::opaque]
spec fn acc_1_95() -> Seq<u8> {
    seq![162u8, 126u8, 3u8, 254u8, 107u8, 2u8, 125u8, 132u8, 113u8, 238u8, 38u8, 147u8, 250u8, 78u8, 188u8, 122u8]
}

#[verifier::opaque]
spec fn acc_1_96() -> Seq<u8> {
    seq![0u8, 152u8, 38u8, 2u8, 104u8, 230u8, 232u8, 207u8, 79u8, 246u8, 159u8, 81u8, 253u8, 41u8, 12u8, 80u8]
}

#[verifier::opaque]
spec fn acc_1_97() -> Seq<u8> {
    seq![68u8, 85u8, 109u8, 250u8, 111u8, 46u8, 195u8, 88u8, 51u8, 198u8, 237u8, 212u8, 242u8, 231u8, 108u8, 5u8]
}

#[verifier::opaque]
spec fn acc_1_98() -> Seq<u8> {
    seq![68u8, 85u8, 109u8, 250u8, 111u8, 46u8, 195u8, 88u8, 51u8, 198u8, 237u8, 212u8, 242u8, 231u8, 108u8, 5u8]
}

#[verifier::opaque]
spec fn acc_1_99() -> Seq<u8> {
    seq![211u8, 96u8, 66u8, 27u8, 112u8, 14u8, 108u8, 4u8, 193u8, 7u8, 37u8, 193u8, 204u8, 223u8, 239u8, 80u8]
}

#[verifier::opaque]
spec fn acc_1_100() -> Seq<u8> {
    seq![211u8, 96u8, 66u8, 27u8, 112u8, 14u8, 108u8, 4u8, 193u8, 7u8, 37u8, 193u8, 204u8, 223u8, 239u8, 80u8]
}

#[verifier::opaque]
spec fn acc_1_101() -> Seq<u8> {
    seq![8u8, 182u8, 254u8, 159u8, 15u8, 142u8, 208u8, 118u8, 8u8, 0u8, 6u8, 150u8, 52u8, 63u8, 227u8, 6u8]
}

#[verifier::opaque]
spec fn acc_1_102() -> Seq<u8> {
    seq![8u8, 182u8, 254u8, 159u8, 15u8, 142u8, 208u8, 118u8, 8u8, 0u8, 6u8, 150u8, 52u8, 63u8, 227u8, 6u8]
}

#[verifier::opaque]
spec fn acc_1_103() -> Seq<u8> {
    seq![227u8, 237u8, 13u8, 141u8, 241u8, 143u8, 34u8, 188u8, 45u8, 31u8, 138u8, 202u8, 213u8, 188u8, 208u8, 94u8]
}

#[verifier::opaque]
spec fn acc_1_104() -> Seq<u8> {
    seq![227u8, 237u8, 13u8, 141u8, 241u8, 143u8, 34u8, 188u8, 45u8, 31u8, 138u8, 202u8, 213u8, 188u8, 208u8, 94u8]
}

#[verifier::opaque]
spec fn acc_1_105() -> Seq<u8> {
    seq![200u8, 130u8, 192u8, 198u8, 9u8, 136u8, 234u8, 151u8, 186u8, 99u8, 186u8, 184u8, 80u8, 179u8, 30u8, 62u8]
}

#[verifier::opaque]
spec fn acc_1_106() -> Seq<u8> {
    seq![200u8, 130u8, 192u8, 198u8, 9u8, 136u8, 234u8, 151u8, 186u8, 99u8, 186u8, 184u8, 80u8, 179u8, 30u8, 62u8]
}

#[verifier::opaque]
spec fn acc_1_107() -> Seq<u8> {
    seq![227u8, 62u8, 245u8, 233u8, 232u8, 151u8, 202u8, 56u8, 230u8, 145u8, 123u8, 112u8, 69u8, 141u8, 38u8, 189u8]
}

#[verifier::opaque]
spec fn acc_1_108() -> Seq<u8> {
    seq![227u8, 62u8, 245u8, 233u8, 232u8, 151u8, 202u8, 56u8, 230u8, 145u8, 123u8, 112u8, 69u8, 141u8, 38u8, 189u8]
}

#[verifier::opaque]
spec fn acc_1_109() -> Seq<u8> {
    seq![227u8, 62u8, 245u8, 233u8, 232u8, 151u8, 202u8, 56u8, 230u8, 145u8, 123u8, 112u8, 69u8, 141u8, 38u8, 189u8]
}

#[verifier::opaque]
spec fn acc_1_110() -> Seq<u8> {
    seq![227u8, 62u8, 245u8, 233u8, 232u8, 151u8, 202u8, 56u8, 230u8, 145u8, 123u8, 112u8, 69u8, 141u8, 38u8, 189u8]
}

#[verifier::opaque]
spec fn acc_1_111() -> Seq<u8> {
    seq![227u8, 62u8, 245u8, 233u8, 232u8, 151u8, 202u8, 56u8, 230u8, 145u8, 123u8, 112u8, 69u8, 141u8, 38u8, 189u8]
}

#[verifier::opaque]
spec fn acc_1_112() -> Seq<u8> {
    seq![243u8, 179u8, 66u8, 15u8, 205u8, 107u8, 201u8, 220u8, 115u8, 218u8, 69u8, 104u8, 252u8, 79u8, 33u8, 218u8]
}

#[verifier::opaque]
spec fn acc_1_113() -> Seq<u8> {
    seq![211u8, 169u8, 45u8, 194u8, 134u8, 147u8, 206u8, 20u8, 88u8, 77u8, 57u8, 88u8, 142u8, 202u8, 46u8, 20u8]
}

#[verifier::opaque]
spec fn acc_1_114() -> Seq<u8> {
    seq![211u8, 169u8, 45u8, 194u8, 134u8, 147u8, 206u8, 20u8, 88u8, 77u8, 57u8, 88u8, 142u8, 202u8, 46u8, 20u8]
}

#[verifier::opaque]
spec fn acc_1_115() -> Seq<u8> {
    seq![218u8, 192u8, 145u8, 247u8, 169u8, 114u8, 209u8, 52u8, 247u8, 17u8, 203u8, 153u8, 70u8, 223u8, 16u8, 44u8]
}

#[verifier::opaque]
spec fn acc_1_116() -> Seq<u8> {
    seq![200u8, 18u8, 233u8, 156u8, 247u8, 176u8, 238u8, 116u8, 169u8, 168u8, 47u8, 26u8, 215u8, 244u8, 108u8, 92u8]
}

#[verifier::opaque]
spec fn acc_1_117() -> Seq<u8> {
    seq![236u8, 182u8, 24u8, 74u8, 75u8, 52u8, 145u8, 244u8, 21u8, 218u8, 230u8, 29u8, 244u8, 163u8, 148u8, 188u8]
}

#[verifier::opaque]
spec fn acc_1_118() -> Seq<u8> {
    seq![35u8, 254u8, 251u8, 231u8, 50u8, 61u8, 110u8, 244u8, 108u8, 63u8, 116u8, 18u8, 178u8, 13u8, 100u8, 125u8]
}

#[verifier::opaque]
spec fn acc_1_119() -> Seq<u8> {
    seq![35u8, 254u8, 251u8, 231u8, 50u8, 61u8, 110u8, 244u8, 108u8, 63u8, 116u8, 18u8, 178u8, 13u8, 100u8, 125u8]
}

#[verifier::opaque]
spec fn acc_1_120() -> Seq<u8> {
    seq![35u8, 254u8, 251u8, 231u8, 50u8, 61u8, 110u8, 244u8, 108u8, 63u8, 116u8, 18u8, 178u8, 13u8, 100u8, 125u8]
}

#[verifier::opaque]
spec fn acc_1_121() -> Seq<u8> {
    seq![73u8, 187u8, 225u8, 136u8, 255u8, 118u8, 150u8, 243u8, 164u8, 20u8, 227u8, 110u8, 130u8, 127u8, 225u8, 114u8]
}

#[verifier::opaque]
spec fn acc_1_122() -> Seq<u8> {
    seq![73u8, 187u8, 225u8, 136u8, 255u8, 118u8, 150u8, 243u8, 164u8, 20u8, 227u8, 110u8, 130u8, 127u8, 225u8, 114u8]
}

#[verifier::opaque]
spec fn acc_1_123() -> Seq<u8> {
    seq![225u8, 174u8, 136u8, 52u8, 202u8, 89u8, 119u8, 236u8, 132u8, 187u8, 191u8, 156u8, 67u8, 183u8, 244u8, 76u8]
}

#[verifier::opaque]
spec fn acc_1_124() -> Seq<u8> {
    seq![225u8, 174u8, 136u8, 52u8, 202u8, 89u8, 119u8, 236u8, 132u8, 187u8, 191u8, 156u8, 67u8, 183u8, 244u8, 76u8]
}

#[verifier::opaque]
spec fn acc_1_125() -> Seq<u8> {
    seq![225u8, 174u8, 136u8, 52u8, 202u8, 89u8, 119u8, 236u8, 132u8, 187u8, 191u8, 156u8, 67u8, 183u8, 244u8, 76u8]
}

#[verifier::opaque]
spec fn acc_1_126() -> Seq<u8> {
    seq![225u8, 174u8, 136u8, 52u8, 202u8, 89u8, 119u8, 236u8, 132u8, 187u8, 191u8, 156u8, 67u8, 183u8, 244u8, 76u8]
}

#[verifier::opaque]
spec fn acc_1_127() -> Seq<u8> {
    seq![225u8, 174u8, 136u8, 52u8, 202u8, 89u8, 119u8, 236u8, 132u8, 187u8, 191u8, 156u8, 67u8, 183u8, 244u8, 76u8]
}

#[verifier::opaque]
spec fn acc_1_128() -> Seq<u8> {
    seq![225u8, 174u8, 136u8, 52u8, 202u8, 89u8, 119u8, 236u8, 132u8, 187u8, 191u8, 156u8, 67u8, 183u8, 244u8, 76u8]
}

proof fn lemma_acc_1_0()
    ensures
        shift_add_mul(alpha_spec(), alpha_pow_1(), 0) == acc_1_0(),
{
    reveal(acc_1_0);
    assert(shift_add_mul(alpha_spec(), alpha_pow_1(), 0) =~= acc_1_0());
}

proof fn lemma_acc_1_1()
    ensures
        shift_add_mul(alpha_spec(), alpha_pow_1(), 1) == acc_1_1(),
{
    lemma_acc_1_0();
    lemma_alpha_x_0();
    lemma_alpha_byte_facts();
    reveal(bytes_p_1_1);
    reveal(alpha_pow_1);
    reveal(acc_1_0);
    reveal(acc_1_1);
    reveal(alpha_x_0);
    assert(bits_of_bytes(alpha_pow_1())[0] == bit_of(13u8, 0));
    assert(shift_add_mul(alpha_spec(), alpha_pow_1(), 1) =~= acc_1_1());
}

proof fn lemma_acc_1_2()
    ensures
        shift_add_mul(alpha_spec(), alpha_pow_1(), 2) == acc_1_2(),
{
    lemma_acc_1_1();
    lemma_alpha_x_1();
    lemma_alpha_byte_facts();
    reveal(bytes_p_1_2);
    reveal(alpha_pow_1);
    reveal(acc_1_1);
    reveal(acc_1_2);
    reveal(alpha_x_1);
    assert(bits_of_bytes(alpha_pow_1())[1] == bit_of(13u8, 1));
    assert(shift_add_mul(alpha_spec(), alpha_pow_1(), 2) =~= acc_1_2());
}

proof fn lemma_acc_1_3()
    ensures
        shift_add_mul(alpha_spec(), alpha_pow_1(), 3) == acc_1_3(),
{
    lemma_acc_1_2();
    lemma_alpha_x_2();
    lemma_alpha_byte_facts();
    reveal(bytes_p_1_3);
    reveal(alpha_pow_1);
    reveal(acc_1_2);
    reveal(acc_1_3);
    reveal(alpha_x_2);
    assert(bits_of_bytes(alpha_pow_1())[2] == bit_of(13u8, 2));
    assert(shift_add_mul(alpha_spec(), alpha_pow_1(), 3) =~= acc_1_3());
}

proof fn lemma_acc_1_4()
    ensures
        shift_add_mul(alpha_spec(), alpha_pow_1(), 4) == acc_1_4(),
{
    lemma_acc_1_3();
    lemma_alpha_x_3();
    lemma_alpha_byte_facts();
    reveal(bytes_p_1_4);
    reveal(alpha_pow_1);
    reveal(acc_1_3);
    reveal(acc_1_4);
    reveal(alpha_x_3);
    assert(bits_of_bytes(alpha_pow_1())[3] == bit_of(13u8, 3));
    assert(shift_add_mul(alpha_spec(), alpha_pow_1(), 4) =~= acc_1_4());
}

proof fn lemma_acc_1_5()
    ensures
        shift_add_mul(alpha_spec(), alpha_pow_1(), 5) == acc_1_5(),
{
    lemma_acc_1_4();
    lemma_alpha_x_4();
    lemma_alpha_byte_facts();
    reveal(bytes_p_1_5);
    reveal(alpha_pow_1);
    reveal(acc_1_4);
    reveal(acc_1_5);
    reveal(alpha_x_4);
    assert(bits_of_bytes(alpha_pow_1())[4] == bit_of(13u8, 4));
    assert(shift_add_mul(alpha_spec(), alpha_pow_1(), 5) =~= acc_1_5());
}

proof fn lemma_acc_1_6()
    ensures
        shift_add_mul(alpha_spec(), alpha_pow_1(), 6) == acc_1_6(),
{
    lemma_acc_1_5();
    lemma_alpha_x_5();
    lemma_alpha_byte_facts();
    reveal(bytes_p_1_6);
    reveal(alpha_pow_1);
    reveal(acc_1_5);
    reveal(acc_1_6);
    reveal(alpha_x_5);
    assert(bits_of_bytes(alpha_pow_1())[5] == bit_of(13u8, 5));
    assert(shift_add_mul(alpha_spec(), alpha_pow_1(), 6) =~= acc_1_6());
}

proof fn lemma_acc_1_7()
    ensures
        shift_add_mul(alpha_spec(), alpha_pow_1(), 7) == acc_1_7(),
{
    lemma_acc_1_6();
    lemma_alpha_x_6();
    lemma_alpha_byte_facts();
    reveal(bytes_p_1_7);
    reveal(alpha_pow_1);
    reveal(acc_1_6);
    reveal(acc_1_7);
    reveal(alpha_x_6);
    assert(bits_of_bytes(alpha_pow_1())[6] == bit_of(13u8, 6));
    assert(shift_add_mul(alpha_spec(), alpha_pow_1(), 7) =~= acc_1_7());
}

proof fn lemma_acc_1_8()
    ensures
        shift_add_mul(alpha_spec(), alpha_pow_1(), 8) == acc_1_8(),
{
    lemma_acc_1_7();
    lemma_alpha_x_7();
    lemma_alpha_byte_facts();
    reveal(bytes_p_1_8);
    reveal(alpha_pow_1);
    reveal(acc_1_7);
    reveal(acc_1_8);
    reveal(alpha_x_7);
    assert(bits_of_bytes(alpha_pow_1())[7] == bit_of(13u8, 7));
    assert(shift_add_mul(alpha_spec(), alpha_pow_1(), 8) =~= acc_1_8());
}

proof fn lemma_acc_1_9()
    ensures
        shift_add_mul(alpha_spec(), alpha_pow_1(), 9) == acc_1_9(),
{
    lemma_acc_1_8();
    lemma_alpha_x_8();
    lemma_alpha_byte_facts();
    reveal(bytes_p_1_9);
    reveal(alpha_pow_1);
    reveal(acc_1_8);
    reveal(acc_1_9);
    reveal(alpha_x_8);
    assert(bits_of_bytes(alpha_pow_1())[8] == bit_of(206u8, 0));
    assert(shift_add_mul(alpha_spec(), alpha_pow_1(), 9) =~= acc_1_9());
}

proof fn lemma_acc_1_10()
    ensures
        shift_add_mul(alpha_spec(), alpha_pow_1(), 10) == acc_1_10(),
{
    lemma_acc_1_9();
    lemma_alpha_x_9();
    lemma_alpha_byte_facts();
    reveal(bytes_p_1_10);
    reveal(alpha_pow_1);
    reveal(acc_1_9);
    reveal(acc_1_10);
    reveal(alpha_x_9);
    assert(bits_of_bytes(alpha_pow_1())[9] == bit_of(206u8, 1));
    assert(shift_add_mul(alpha_spec(), alpha_pow_1(), 10) =~= acc_1_10());
}

proof fn lemma_acc_1_11()
    ensures
        shift_add_mul(alpha_spec(), alpha_pow_1(), 11) == acc_1_11(),
{
    lemma_acc_1_10();
    lemma_alpha_x_10();
    lemma_alpha_byte_facts();
    reveal(bytes_p_1_11);
    reveal(alpha_pow_1);
    reveal(acc_1_10);
    reveal(acc_1_11);
    reveal(alpha_x_10);
    assert(bits_of_bytes(alpha_pow_1())[10] == bit_of(206u8, 2));
    assert(shift_add_mul(alpha_spec(), alpha_pow_1(), 11) =~= acc_1_11());
}

proof fn lemma_acc_1_12()
    ensures
        shift_add_mul(alpha_spec(), alpha_pow_1(), 12) == acc_1_12(),
{
    lemma_acc_1_11();
    lemma_alpha_x_11();
    lemma_alpha_byte_facts();
    reveal(bytes_p_1_12);
    reveal(alpha_pow_1);
    reveal(acc_1_11);
    reveal(acc_1_12);
    reveal(alpha_x_11);
    assert(bits_of_bytes(alpha_pow_1())[11] == bit_of(206u8, 3));
    assert(shift_add_mul(alpha_spec(), alpha_pow_1(), 12) =~= acc_1_12());
}

proof fn lemma_acc_1_13()
    ensures
        shift_add_mul(alpha_spec(), alpha_pow_1(), 13) == acc_1_13(),
{
    lemma_acc_1_12();
    lemma_alpha_x_12();
    lemma_alpha_byte_facts();
    reveal(bytes_p_1_13);
    reveal(alpha_pow_1);
    reveal(acc_1_12);
    reveal(acc_1_13);
    reveal(alpha_x_12);
    assert(bits_of_bytes(alpha_pow_1())[12] == bit_of(206u8, 4));
    assert(shift_add_mul(alpha_spec(), alpha_pow_1(), 13) =~= acc_1_13());
}

proof fn lemma_acc_1_14()
    ensures
        shift_add_mul(alpha_spec(), alpha_pow_1(), 14) == acc_1_14(),
{
    lemma_acc_1_13();
    lemma_alpha_x_13();
    lemma_alpha_byte_facts();
    reveal(bytes_p_1_14);
    reveal(alpha_pow_1);
    reveal(acc_1_13);
    reveal(acc_1_14);
    reveal(alpha_x_13);
    assert(bits_of_bytes(alpha_pow_1())[13] == bit_of(206u8, 5));
    assert(shift_add_mul(alpha_spec(), alpha_pow_1(), 14) =~= acc_1_14());
}

proof fn lemma_acc_1_15()
    ensures
        shift_add_mul(alpha_spec(), alpha_pow_1(), 15) == acc_1_15(),
{
    lemma_acc_1_14();
    lemma_alpha_x_14();
    lemma_alpha_byte_facts();
    reveal(bytes_p_1_15);
    reveal(alpha_pow_1);
    reveal(acc_1_14);
    reveal(acc_1_15);
    reveal(alpha_x_14);
    assert(bits_of_bytes(alpha_pow_1())[14] == bit_of(206u8, 6));
    assert(shift_add_mul(alpha_spec(), alpha_pow_1(), 15) =~= acc_1_15());
}

proof fn lemma_acc_1_16()
    ensures
        shift_add_mul(alpha_spec(), alpha_pow_1(), 16) == acc_1_16(),
{
    lemma_acc_1_15();
    lemma_alpha_x_15();
    lemma_alpha_byte_facts();
    reveal(bytes_p_1_16);
    reveal(alpha_pow_1);
    reveal(acc_1_15);
    reveal(acc_1_16);
    reveal(alpha_x_15);
    assert(bits_of_bytes(alpha_pow_1())[15] == bit_of(206u8, 7));
    assert(shift_add_mul(alpha_spec(), alpha_pow_1(), 16) =~= acc_1_16());
}

proof fn lemma_acc_1_17()
    ensures
        shift_add_mul(alpha_spec(), alpha_pow_1(), 17) == acc_1_17(),
{
    lemma_acc_1_16();
    lemma_alpha_x_16();
    lemma_alpha_byte_facts();
    reveal(bytes_p_1_17);
    reveal(alpha_pow_1);
    reveal(acc_1_16);
    reveal(acc_1_17);
    reveal(alpha_x_16);
    assert(bits_of_bytes(alpha_pow_1())[16] == bit_of(96u8, 0));
    assert(shift_add_mul(alpha_spec(), alpha_pow_1(), 17) =~= acc_1_17());
}

proof fn lemma_acc_1_18()
    ensures
        shift_add_mul(alpha_spec(), alpha_pow_1(), 18) == acc_1_18(),
{
    lemma_acc_1_17();
    lemma_alpha_x_17();
    lemma_alpha_byte_facts();
    reveal(bytes_p_1_18);
    reveal(alpha_pow_1);
    reveal(acc_1_17);
    reveal(acc_1_18);
    reveal(alpha_x_17);
    assert(bits_of_bytes(alpha_pow_1())[17] == bit_of(96u8, 1));
    assert(shift_add_mul(alpha_spec(), alpha_pow_1(), 18) =~= acc_1_18());
}

proof fn lemma_acc_1_19()
    ensures
        shift_add_mul(alpha_spec(), alpha_pow_1(), 19) == acc_1_19(),
{
    lemma_acc_1_18();
    lemma_alpha_x_18();
    lemma_alpha_byte_facts();
    reveal(bytes_p_1_19);
    reveal(alpha_pow_1);
    reveal(acc_1_18);
    reveal(acc_1_19);
    reveal(alpha_x_18);
    assert(bits_of_bytes(alpha_pow_1())[18] == bit_of(96u8, 2));
    assert(shift_add_mul(alpha_spec(), alpha_pow_1(), 19) =~= acc_1_19());
}

proof fn lemma_acc_1_20()
    ensures
        shift_add_mul(alpha_spec(), alpha_pow_1(), 20) == acc_1_20(),
{
    lemma_acc_1_19();
    lemma_alpha_x_19();
    lemma_alpha_byte_facts();
    reveal(bytes_p_1_20);
    reveal(alpha_pow_1);
    reveal(acc_1_19);
    reveal(acc_1_20);
    reveal(alpha_x_19);
    assert(bits_of_bytes(alpha_pow_1())[19] == bit_of(96u8, 3));
    assert(shift_add_mul(alpha_spec(), alpha_pow_1(), 20) =~= acc_1_20());
}

proof fn lemma_acc_1_21()
    ensures
        shift_add_mul(alpha_spec(), alpha_pow_1(), 21) == acc_1_21(),
{
    lemma_acc_1_20();
    lemma_alpha_x_20();
    lemma_alpha_byte_facts();
    reveal(bytes_p_1_21);
    reveal(alpha_pow_1);
    reveal(acc_1_20);
    reveal(acc_1_21);
    reveal(alpha_x_20);
    assert(bits_of_bytes(alpha_pow_1())[20] == bit_of(96u8, 4));
    assert(shift_add_mul(alpha_spec(), alpha_pow_1(), 21) =~= acc_1_21());
}

proof fn lemma_acc_1_22()
    ensures
        shift_add_mul(alpha_spec(), alpha_pow_1(), 22) == acc_1_22(),
{
    lemma_acc_1_21();
    lemma_alpha_x_21();
    lemma_alpha_byte_facts();
    reveal(bytes_p_1_22);
    reveal(alpha_pow_1);
    reveal(acc_1_21);
    reveal(acc_1_22);
    reveal(alpha_x_21);
    assert(bits_of_bytes(alpha_pow_1())[21] == bit_of(96u8, 5));
    assert(shift_add_mul(alpha_spec(), alpha_pow_1(), 22) =~= acc_1_22());
}

proof fn lemma_acc_1_23()
    ensures
        shift_add_mul(alpha_spec(), alpha_pow_1(), 23) == acc_1_23(),
{
    lemma_acc_1_22();
    lemma_alpha_x_22();
    lemma_alpha_byte_facts();
    reveal(bytes_p_1_23);
    reveal(alpha_pow_1);
    reveal(acc_1_22);
    reveal(acc_1_23);
    reveal(alpha_x_22);
    assert(bits_of_bytes(alpha_pow_1())[22] == bit_of(96u8, 6));
    assert(shift_add_mul(alpha_spec(), alpha_pow_1(), 23) =~= acc_1_23());
}

proof fn lemma_acc_1_24()
    ensures
        shift_add_mul(alpha_spec(), alpha_pow_1(), 24) == acc_1_24(),
{
    lemma_acc_1_23();
    lemma_alpha_x_23();
    lemma_alpha_byte_facts();
    reveal(bytes_p_1_24);
    reveal(alpha_pow_1);
    reveal(acc_1_23);
    reveal(acc_1_24);
    reveal(alpha_x_23);
    assert(bits_of_bytes(alpha_pow_1())[23] == bit_of(96u8, 7));
    assert(shift_add_mul(alpha_spec(), alpha_pow_1(), 24) =~= acc_1_24());
}

proof fn lemma_acc_1_25()
    ensures
        shift_add_mul(alpha_spec(), alpha_pow_1(), 25) == acc_1_25(),
{
    lemma_acc_1_24();
    lemma_alpha_x_24();
    lemma_alpha_byte_facts();
    reveal(bytes_p_1_25);
    reveal(alpha_pow_1);
    reveal(acc_1_24);
    reveal(acc_1_25);
    reveal(alpha_x_24);
    assert(bits_of_bytes(alpha_pow_1())[24] == bit_of(85u8, 0));
    assert(shift_add_mul(alpha_spec(), alpha_pow_1(), 25) =~= acc_1_25());
}

proof fn lemma_acc_1_26()
    ensures
        shift_add_mul(alpha_spec(), alpha_pow_1(), 26) == acc_1_26(),
{
    lemma_acc_1_25();
    lemma_alpha_x_25();
    lemma_alpha_byte_facts();
    reveal(bytes_p_1_26);
    reveal(alpha_pow_1);
    reveal(acc_1_25);
    reveal(acc_1_26);
    reveal(alpha_x_25);
    assert(bits_of_bytes(alpha_pow_1())[25] == bit_of(85u8, 1));
    assert(shift_add_mul(alpha_spec(), alpha_pow_1(), 26) =~= acc_1_26());
}

proof fn lemma_acc_1_27()
    ensures
        shift_add_mul(alpha_spec(), alpha_pow_1(), 27) == acc_1_27(),
{
    lemma_acc_1_26();
    lemma_alpha_x_26();
    lemma_alpha_byte_facts();
    reveal(bytes_p_1_27);
    reveal(alpha_pow_1);
    reveal(acc_1_26);
    reveal(acc_1_27);
    reveal(alpha_x_26);
    assert(bits_of_bytes(alpha_pow_1())[26] == bit_of(85u8, 2));
    assert(shift_add_mul(alpha_spec(), alpha_pow_1(), 27) =~= acc_1_27());
}

proof fn lemma_acc_1_28()
    ensures
        shift_add_mul(alpha_spec(), alpha_pow_1(), 28) == acc_1_28(),
{
    lemma_acc_1_27();
    lemma_alpha_x_27();
    lemma_alpha_byte_facts();
    reveal(bytes_p_1_28);
    reveal(alpha_pow_1);
    reveal(acc_1_27);
    reveal(acc_1_28);
    reveal(alpha_x_27);
    assert(bits_of_bytes(alpha_pow_1())[27] == bit_of(85u8, 3));
    assert(shift_add_mul(alpha_spec(), alpha_pow_1(), 28) =~= acc_1_28());
}

proof fn lemma_acc_1_29()
    ensures
        shift_add_mul(alpha_spec(), alpha_pow_1(), 29) == acc_1_29(),
{
    lemma_acc_1_28();
    lemma_alpha_x_28();
    lemma_alpha_byte_facts();
    reveal(bytes_p_1_29);
    reveal(alpha_pow_1);
    reveal(acc_1_28);
    reveal(acc_1_29);
    reveal(alpha_x_28);
    assert(bits_of_bytes(alpha_pow_1())[28] == bit_of(85u8, 4));
    assert(shift_add_mul(alpha_spec(), alpha_pow_1(), 29) =~= acc_1_29());
}

proof fn lemma_acc_1_30()
    ensures
        shift_add_mul(alpha_spec(), alpha_pow_1(), 30) == acc_1_30(),
{
    lemma_acc_1_29();
    lemma_alpha_x_29();
    lemma_alpha_byte_facts();
    reveal(bytes_p_1_30);
    reveal(alpha_pow_1);
    reveal(acc_1_29);
    reveal(acc_1_30);
    reveal(alpha_x_29);
    assert(bits_of_bytes(alpha_pow_1())[29] == bit_of(85u8, 5));
    assert(shift_add_mul(alpha_spec(), alpha_pow_1(), 30) =~= acc_1_30());
}

proof fn lemma_acc_1_31()
    ensures
        shift_add_mul(alpha_spec(), alpha_pow_1(), 31) == acc_1_31(),
{
    lemma_acc_1_30();
    lemma_alpha_x_30();
    lemma_alpha_byte_facts();
    reveal(bytes_p_1_31);
    reveal(alpha_pow_1);
    reveal(acc_1_30);
    reveal(acc_1_31);
    reveal(alpha_x_30);
    assert(bits_of_bytes(alpha_pow_1())[30] == bit_of(85u8, 6));
    assert(shift_add_mul(alpha_spec(), alpha_pow_1(), 31) =~= acc_1_31());
}

proof fn lemma_acc_1_32()
    ensures
        shift_add_mul(alpha_spec(), alpha_pow_1(), 32) == acc_1_32(),
{
    lemma_acc_1_31();
    lemma_alpha_x_31();
    lemma_alpha_byte_facts();
    reveal(bytes_p_1_32);
    reveal(alpha_pow_1);
    reveal(acc_1_31);
    reveal(acc_1_32);
    reveal(alpha_x_31);
    assert(bits_of_bytes(alpha_pow_1())[31] == bit_of(85u8, 7));
    assert(shift_add_mul(alpha_spec(), alpha_pow_1(), 32) =~= acc_1_32());
}

proof fn lemma_acc_1_33()
    ensures
        shift_add_mul(alpha_spec(), alpha_pow_1(), 33) == acc_1_33(),
{
    lemma_acc_1_32();
    lemma_alpha_x_32();
    lemma_alpha_byte_facts();
    reveal(bytes_p_1_33);
    reveal(alpha_pow_1);
    reveal(acc_1_32);
    reveal(acc_1_33);
    reveal(alpha_x_32);
    assert(bits_of_bytes(alpha_pow_1())[32] == bit_of(172u8, 0));
    assert(shift_add_mul(alpha_spec(), alpha_pow_1(), 33) =~= acc_1_33());
}

proof fn lemma_acc_1_34()
    ensures
        shift_add_mul(alpha_spec(), alpha_pow_1(), 34) == acc_1_34(),
{
    lemma_acc_1_33();
    lemma_alpha_x_33();
    lemma_alpha_byte_facts();
    reveal(bytes_p_1_34);
    reveal(alpha_pow_1);
    reveal(acc_1_33);
    reveal(acc_1_34);
    reveal(alpha_x_33);
    assert(bits_of_bytes(alpha_pow_1())[33] == bit_of(172u8, 1));
    assert(shift_add_mul(alpha_spec(), alpha_pow_1(), 34) =~= acc_1_34());
}

proof fn lemma_acc_1_35()
    ensures
        shift_add_mul(alpha_spec(), alpha_pow_1(), 35) == acc_1_35(),
{
    lemma_acc_1_34();
    lemma_alpha_x_34();
    lemma_alpha_byte_facts();
    reveal(bytes_p_1_35);
    reveal(alpha_pow_1);
    reveal(acc_1_34);
    reveal(acc_1_35);
    reveal(alpha_x_34);
    assert(bits_of_bytes(alpha_pow_1())[34] == bit_of(172u8, 2));
    assert(shift_add_mul(alpha_spec(), alpha_pow_1(), 35) =~= acc_1_35());
}

proof fn lemma_acc_1_36()
    ensures
        shift_add_mul(alpha_spec(), alpha_pow_1(), 36) == acc_1_36(),
{
    lemma_acc_1_35();
    lemma_alpha_x_35();
    lemma_alpha_byte_facts();
    reveal(bytes_p_1_36);
    reveal(alpha_pow_1);
    reveal(acc_1_35);
    reveal(acc_1_36);
    reveal(alpha_x_35);
    assert(bits_of_bytes(alpha_pow_1())[35] == bit_of(172u8, 3));
    assert(shift_add_mul(alpha_spec(), alpha_pow_1(), 36) =~= acc_1_36());
}

proof fn lemma_acc_1_37()
    ensures
        shift_add_mul(alpha_spec(), alpha_pow_1(), 37) == acc_1_37(),
{
    lemma_acc_1_36();
    lemma_alpha_x_36();
    lemma_alpha_byte_facts();
    reveal(bytes_p_1_37);
    reveal(alpha_pow_1);
    reveal(acc_1_36);
    reveal(acc_1_37);
    reveal(alpha_x_36);
    assert(bits_of_bytes(alpha_pow_1())[36] == bit_of(172u8, 4));
    assert(shift_add_mul(alpha_spec(), alpha_pow_1(), 37) =~= acc_1_37());
}

proof fn lemma_acc_1_38()
    ensures
        shift_add_mul(alpha_spec(), alpha_pow_1(), 38) == acc_1_38(),
{
    lemma_acc_1_37();
    lemma_alpha_x_37();
    lemma_alpha_byte_facts();
    reveal(bytes_p_1_38);
    reveal(alpha_pow_1);
    reveal(acc_1_37);
    reveal(acc_1_38);
    reveal(alpha_x_37);
    assert(bits_of_bytes(alpha_pow_1())[37] == bit_of(172u8, 5));
    assert(shift_add_mul(alpha_spec(), alpha_pow_1(), 38) =~= acc_1_38());
}

proof fn lemma_acc_1_39()
    ensures
        shift_add_mul(alpha_spec(), alpha_pow_1(), 39) == acc_1_39(),
{
    lemma_acc_1_38();
    lemma_alpha_x_38();
    lemma_alpha_byte_facts();
    reveal(bytes_p_1_39);
    reveal(alpha_pow_1);
    reveal(acc_1_38);
    reveal(acc_1_39);
    reveal(alpha_x_38);
    assert(bits_of_bytes(alpha_pow_1())[38] == bit_of(172u8, 6));
    assert(shift_add_mul(alpha_spec(), alpha_pow_1(), 39) =~= acc_1_39());
}

proof fn lemma_acc_1_40()
    ensures
        shift_add_mul(alpha_spec(), alpha_pow_1(), 40) == acc_1_40(),
{
    lemma_acc_1_39();
    lemma_alpha_x_39();
    lemma_alpha_byte_facts();
    reveal(bytes_p_1_40);
    reveal(alpha_pow_1);
    reveal(acc_1_39);
    reveal(acc_1_40);
    reveal(alpha_x_39);
    assert(bits_of_bytes(alpha_pow_1())[39] == bit_of(172u8, 7));
    assert(shift_add_mul(alpha_spec(), alpha_pow_1(), 40) =~= acc_1_40());
}

proof fn lemma_acc_1_41()
    ensures
        shift_add_mul(alpha_spec(), alpha_pow_1(), 41) == acc_1_41(),
{
    lemma_acc_1_40();
    lemma_alpha_x_40();
    lemma_alpha_byte_facts();
    reveal(bytes_p_1_41);
    reveal(alpha_pow_1);
    reveal(acc_1_40);
    reveal(acc_1_41);
    reveal(alpha_x_40);
    assert(bits_of_bytes(alpha_pow_1())[40] == bit_of(232u8, 0));
    assert(shift_add_mul(alpha_spec(), alpha_pow_1(), 41) =~= acc_1_41());
}

proof fn lemma_acc_1_42()
    ensures
        shift_add_mul(alpha_spec(), alpha_pow_1(), 42) == acc_1_42(),
{
    lemma_acc_1_41();
    lemma_alpha_x_41();
    lemma_alpha_byte_facts();
    reveal(bytes_p_1_42);
    reveal(alpha_pow_1);
    reveal(acc_1_41);
    reveal(acc_1_42);
    reveal(alpha_x_41);
    assert(bits_of_bytes(alpha_pow_1())[41] == bit_of(232u8, 1));
    assert(shift_add_mul(alpha_spec(), alpha_pow_1(), 42) =~= acc_1_42());
}

proof fn lemma_acc_1_43()
    ensures
        shift_add_mul(alpha_spec(), alpha_pow_1(), 43) == acc_1_43(),
{
    lemma_acc_1_42();
    lemma_alpha_x_42();
    lemma_alpha_byte_facts();
    reveal(bytes_p_1_43);
    reveal(alpha_pow_1);
    reveal(acc_1_42);
    reveal(acc_1_43);
    reveal(alpha_x_42);
    assert(bits_of_bytes(alpha_pow_1())[42] == bit_of(232u8, 2));
    assert(shift_add_mul(alpha_spec(), alpha_pow_1(), 43) =~= acc_1_43());
}

proof fn lemma_acc_1_44()
    ensures
        shift_add_mul(alpha_spec(), alpha_pow_1(), 44) == acc_1_44(),
{
    lemma_acc_1_43();
    lemma_alpha_x_43();
    lemma_alpha_byte_facts();
    reveal(bytes_p_1_44);
    reveal(alpha_pow_1);
    reveal(acc_1_43);
    reveal(acc_1_44);
    reveal(alpha_x_43);
    assert(bits_of_bytes(alpha_pow_1())[43] == bit_of(232u8, 3));
    assert(shift_add_mul(alpha_spec(), alpha_pow_1(), 44) =~= acc_1_44());
}

proof fn lemma_acc_1_45()
    ensures
        shift_add_mul(alpha_spec(), alpha_pow_1(), 45) == acc_1_45(),
{
    lemma_acc_1_44();
    lemma_alpha_x_44();
    lemma_alpha_byte_facts();
    reveal(bytes_p_1_45);
    reveal(alpha_pow_1);
    reveal(acc_1_44);
    reveal(acc_1_45);
    reveal(alpha_x_44);
    assert(bits_of_bytes(alpha_pow_1())[44] == bit_of(232u8, 4));
    assert(shift_add_mul(alpha_spec(), alpha_pow_1(), 45) =~= acc_1_45());
}

proof fn lemma_acc_1_46()
    ensures
        shift_add_mul(alpha_spec(), alpha_pow_1(), 46) == acc_1_46(),
{
    lemma_acc_1_45();
    lemma_alpha_x_45();
    lemma_alpha_byte_facts();
    reveal(bytes_p_1_46);
    reveal(alpha_pow_1);
    reveal(acc_1_45);
    reveal(acc_1_46);
    reveal(alpha_x_45);
    assert(bits_of_bytes(alpha_pow_1())[45] == bit_of(232u8, 5));
    assert(shift_add_mul(alpha_spec(), alpha_pow_1(), 46) =~= acc_1_46());
}

proof fn lemma_acc_1_47()
    ensures
        shift_add_mul(alpha_spec(), alpha_pow_1(), 47) == acc_1_47(),
{
    lemma_acc_1_46();
    lemma_alpha_x_46();
    lemma_alpha_byte_facts();
    reveal(bytes_p_1_47);
    reveal(alpha_pow_1);
    reveal(acc_1_46);
    reveal(acc_1_47);
    reveal(alpha_x_46);
    assert(bits_of_bytes(alpha_pow_1())[46] == bit_of(232u8, 6));
    assert(shift_add_mul(alpha_spec(), alpha_pow_1(), 47) =~= acc_1_47());
}

proof fn lemma_acc_1_48()
    ensures
        shift_add_mul(alpha_spec(), alpha_pow_1(), 48) == acc_1_48(),
{
    lemma_acc_1_47();
    lemma_alpha_x_47();
    lemma_alpha_byte_facts();
    reveal(bytes_p_1_48);
    reveal(alpha_pow_1);
    reveal(acc_1_47);
    reveal(acc_1_48);
    reveal(alpha_x_47);
    assert(bits_of_bytes(alpha_pow_1())[47] == bit_of(232u8, 7));
    assert(shift_add_mul(alpha_spec(), alpha_pow_1(), 48) =~= acc_1_48());
}

proof fn lemma_acc_1_49()
    ensures
        shift_add_mul(alpha_spec(), alpha_pow_1(), 49) == acc_1_49(),
{
    lemma_acc_1_48();
    lemma_alpha_x_48();
    lemma_alpha_byte_facts();
    reveal(bytes_p_1_49);
    reveal(alpha_pow_1);
    reveal(acc_1_48);
    reveal(acc_1_49);
    reveal(alpha_x_48);
    assert(bits_of_bytes(alpha_pow_1())[48] == bit_of(63u8, 0));
    assert(shift_add_mul(alpha_spec(), alpha_pow_1(), 49) =~= acc_1_49());
}

proof fn lemma_acc_1_50()
    ensures
        shift_add_mul(alpha_spec(), alpha_pow_1(), 50) == acc_1_50(),
{
    lemma_acc_1_49();
    lemma_alpha_x_49();
    lemma_alpha_byte_facts();
    reveal(bytes_p_1_50);
    reveal(alpha_pow_1);
    reveal(acc_1_49);
    reveal(acc_1_50);
    reveal(alpha_x_49);
    assert(bits_of_bytes(alpha_pow_1())[49] == bit_of(63u8, 1));
    assert(shift_add_mul(alpha_spec(), alpha_pow_1(), 50) =~= acc_1_50());
}

proof fn lemma_acc_1_51()
    ensures
        shift_add_mul(alpha_spec(), alpha_pow_1(), 51) == acc_1_51(),
{
    lemma_acc_1_50();
    lemma_alpha_x_50();
    lemma_alpha_byte_facts();
    reveal(bytes_p_1_51);
    reveal(alpha_pow_1);
    reveal(acc_1_50);
    reveal(acc_1_51);
    reveal(alpha_x_50);
    assert(bits_of_bytes(alpha_pow_1())[50] == bit_of(63u8, 2));
    assert(shift_add_mul(alpha_spec(), alpha_pow_1(), 51) =~= acc_1_51());
}

proof fn lemma_acc_1_52()
    ensures
        shift_add_mul(alpha_spec(), alpha_pow_1(), 52) == acc_1_52(),
{
    lemma_acc_1_51();
    lemma_alpha_x_51();
    lemma_alpha_byte_facts();
    reveal(bytes_p_1_52);
    reveal(alpha_pow_1);
    reveal(acc_1_51);
    reveal(acc_1_52);
    reveal(alpha_x_51);
    assert(bits_of_bytes(alpha_pow_1())[51] == bit_of(63u8, 3));
    assert(shift_add_mul(alpha_spec(), alpha_pow_1(), 52) =~= acc_1_52());
}

proof fn lemma_acc_1_53()
    ensures
        shift_add_mul(alpha_spec(), alpha_pow_1(), 53) == acc_1_53(),
{
    lemma_acc_1_52();
    lemma_alpha_x_52();
    lemma_alpha_byte_facts();
    reveal(bytes_p_1_53);
    reveal(alpha_pow_1);
    reveal(acc_1_52);
    reveal(acc_1_53);
    reveal(alpha_x_52);
    assert(bits_of_bytes(alpha_pow_1())[52] == bit_of(63u8, 4));
    assert(shift_add_mul(alpha_spec(), alpha_pow_1(), 53) =~= acc_1_53());
}

proof fn lemma_acc_1_54()
    ensures
        shift_add_mul(alpha_spec(), alpha_pow_1(), 54) == acc_1_54(),
{
    lemma_acc_1_53();
    lemma_alpha_x_53();
    lemma_alpha_byte_facts();
    reveal(bytes_p_1_54);
    reveal(alpha_pow_1);
    reveal(acc_1_53);
    reveal(acc_1_54);
    reveal(alpha_x_53);
    assert(bits_of_bytes(alpha_pow_1())[53] == bit_of(63u8, 5));
    assert(shift_add_mul(alpha_spec(), alpha_pow_1(), 54) =~= acc_1_54());
}

proof fn lemma_acc_1_55()
    ensures
        shift_add_mul(alpha_spec(), alpha_pow_1(), 55) == acc_1_55(),
{
    lemma_acc_1_54();
    lemma_alpha_x_54();
    lemma_alpha_byte_facts();
    reveal(bytes_p_1_55);
    reveal(alpha_pow_1);
    reveal(acc_1_54);
    reveal(acc_1_55);
    reveal(alpha_x_54);
    assert(bits_of_bytes(alpha_pow_1())[54] == bit_of(63u8, 6));
    assert(shift_add_mul(alpha_spec(), alpha_pow_1(), 55) =~= acc_1_55());
}

proof fn lemma_acc_1_56()
    ensures
        shift_add_mul(alpha_spec(), alpha_pow_1(), 56) == acc_1_56(),
{
    lemma_acc_1_55();
    lemma_alpha_x_55();
    lemma_alpha_byte_facts();
    reveal(bytes_p_1_56);
    reveal(alpha_pow_1);
    reveal(acc_1_55);
    reveal(acc_1_56);
    reveal(alpha_x_55);
    assert(bits_of_bytes(alpha_pow_1())[55] == bit_of(63u8, 7));
    assert(shift_add_mul(alpha_spec(), alpha_pow_1(), 56) =~= acc_1_56());
}

proof fn lemma_acc_1_57()
    ensures
        shift_add_mul(alpha_spec(), alpha_pow_1(), 57) == acc_1_57(),
{
    lemma_acc_1_56();
    lemma_alpha_x_56();
    lemma_alpha_byte_facts();
    reveal(bytes_p_1_57);
    reveal(alpha_pow_1);
    reveal(acc_1_56);
    reveal(acc_1_57);
    reveal(alpha_x_56);
    assert(bits_of_bytes(alpha_pow_1())[56] == bit_of(161u8, 0));
    assert(shift_add_mul(alpha_spec(), alpha_pow_1(), 57) =~= acc_1_57());
}

proof fn lemma_acc_1_58()
    ensures
        shift_add_mul(alpha_spec(), alpha_pow_1(), 58) == acc_1_58(),
{
    lemma_acc_1_57();
    lemma_alpha_x_57();
    lemma_alpha_byte_facts();
    reveal(bytes_p_1_58);
    reveal(alpha_pow_1);
    reveal(acc_1_57);
    reveal(acc_1_58);
    reveal(alpha_x_57);
    assert(bits_of_bytes(alpha_pow_1())[57] == bit_of(161u8, 1));
    assert(shift_add_mul(alpha_spec(), alpha_pow_1(), 58) =~= acc_1_58());
}

proof fn lemma_acc_1_59()
    ensures
        shift_add_mul(alpha_spec(), alpha_pow_1(), 59) == acc_1_59(),
{
    lemma_acc_1_58();
    lemma_alpha_x_58();
    lemma_alpha_byte_facts();
    reveal(bytes_p_1_59);
    reveal(alpha_pow_1);
    reveal(acc_1_58);
    reveal(acc_1_59);
    reveal(alpha_x_58);
    assert(bits_of_bytes(alpha_pow_1())[58] == bit_of(161u8, 2));
    assert(shift_add_mul(alpha_spec(), alpha_pow_1(), 59) =~= acc_1_59());
}

proof fn lemma_acc_1_60()
    ensures
        shift_add_mul(alpha_spec(), alpha_pow_1(), 60) == acc_1_60(),
{
    lemma_acc_1_59();
    lemma_alpha_x_59();
    lemma_alpha_byte_facts();
    reveal(bytes_p_1_60);
    reveal(alpha_pow_1);
    reveal(acc_1_59);
    reveal(acc_1_60);
    reveal(alpha_x_59);
    assert(bits_of_bytes(alpha_pow_1())[59] == bit_of(161u8, 3));
    assert(shift_add_mul(alpha_spec(), alpha_pow_1(), 60) =~= acc_1_60());
}

proof fn lemma_acc_1_61()
    ensures
        shift_add_mul(alpha_spec(), alpha_pow_1(), 61) == acc_1_61(),
{
    lemma_acc_1_60();
    lemma_alpha_x_60();
    lemma_alpha_byte_facts();
    reveal(bytes_p_1_61);
    reveal(alpha_pow_1);
    reveal(acc_1_60);
    reveal(acc_1_61);
    reveal(alpha_x_60);
    assert(bits_of_bytes(alpha_pow_1())[60] == bit_of(161u8, 4));
    assert(shift_add_mul(alpha_spec(), alpha_pow_1(), 61) =~= acc_1_61());
}

proof fn lemma_acc_1_62()
    ensures
        shift_add_mul(alpha_spec(), alpha_pow_1(), 62) == acc_1_62(),
{
    lemma_acc_1_61();
    lemma_alpha_x_61();
    lemma_alpha_byte_facts();
    reveal(bytes_p_1_62);
    reveal(alpha_pow_1);
    reveal(acc_1_61);
    reveal(acc_1_62);
    reveal(alpha_x_61);
    assert(bits_of_bytes(alpha_pow_1())[61] == bit_of(161u8, 5));
    assert(shift_add_mul(alpha_spec(), alpha_pow_1(), 62) =~= acc_1_62());
}

proof fn lemma_acc_1_63()
    ensures
        shift_add_mul(alpha_spec(), alpha_pow_1(), 63) == acc_1_63(),
{
    lemma_acc_1_62();
    lemma_alpha_x_62();
    lemma_alpha_byte_facts();
    reveal(bytes_p_1_63);
    reveal(alpha_pow_1);
    reveal(acc_1_62);
    reveal(acc_1_63);
    reveal(alpha_x_62);
    assert(bits_of_bytes(alpha_pow_1())[62] == bit_of(161u8, 6));
    assert(shift_add_mul(alpha_spec(), alpha_pow_1(), 63) =~= acc_1_63());
}

proof fn lemma_acc_1_64()
    ensures
        shift_add_mul(alpha_spec(), alpha_pow_1(), 64) == acc_1_64(),
{
    lemma_acc_1_63();
    lemma_alpha_x_63();
    lemma_alpha_byte_facts();
    reveal(bytes_p_1_64);
    reveal(alpha_pow_1);
    reveal(acc_1_63);
    reveal(acc_1_64);
    reveal(alpha_x_63);
    assert(bits_of_bytes(alpha_pow_1())[63] == bit_of(161u8, 7));
    assert(shift_add_mul(alpha_spec(), alpha_pow_1(), 64) =~= acc_1_64());
}

proof fn lemma_acc_1_65()
    ensures
        shift_add_mul(alpha_spec(), alpha_pow_1(), 65) == acc_1_65(),
{
    lemma_acc_1_64();
    lemma_alpha_x_64();
    lemma_alpha_byte_facts();
    reveal(bytes_p_1_65);
    reveal(alpha_pow_1);
    reveal(acc_1_64);
    reveal(acc_1_65);
    reveal(alpha_x_64);
    assert(bits_of_bytes(alpha_pow_1())[64] == bit_of(28u8, 0));
    assert(shift_add_mul(alpha_spec(), alpha_pow_1(), 65) =~= acc_1_65());
}

proof fn lemma_acc_1_66()
    ensures
        shift_add_mul(alpha_spec(), alpha_pow_1(), 66) == acc_1_66(),
{
    lemma_acc_1_65();
    lemma_alpha_x_65();
    lemma_alpha_byte_facts();
    reveal(bytes_p_1_66);
    reveal(alpha_pow_1);
    reveal(acc_1_65);
    reveal(acc_1_66);
    reveal(alpha_x_65);
    assert(bits_of_bytes(alpha_pow_1())[65] == bit_of(28u8, 1));
    assert(shift_add_mul(alpha_spec(), alpha_pow_1(), 66) =~= acc_1_66());
}

proof fn lemma_acc_1_67()
    ensures
        shift_add_mul(alpha_spec(), alpha_pow_1(), 67) == acc_1_67(),
{
    lemma_acc_1_66();
    lemma_alpha_x_66();
    lemma_alpha_byte_facts();
    reveal(bytes_p_1_67);
    reveal(alpha_pow_1);
    reveal(acc_1_66);
    reveal(acc_1_67);
    reveal(alpha_x_66);
    assert(bits_of_bytes(alpha_pow_1())[66] == bit_of(28u8, 2));
    assert(shift_add_mul(alpha_spec(), alpha_pow_1(), 67) =~= acc_1_67());
}

proof fn lemma_acc_1_68()
    ensures
        shift_add_mul(alpha_spec(), alpha_pow_1(), 68) == acc_1_68(),
{
    lemma_acc_1_67();
    lemma_alpha_x_67();
    lemma_alpha_byte_facts();
    reveal(bytes_p_1_68);
    reveal(alpha_pow_1);
    reveal(acc_1_67);
    reveal(acc_1_68);
    reveal(alpha_x_67);
    assert(bits_of_bytes(alpha_pow_1())[67] == bit_of(28u8, 3));
    assert(shift_add_mul(alpha_spec(), alpha_pow_1(), 68) =~= acc_1_68());
}

proof fn lemma_acc_1_69()
    ensures
        shift_add_mul(alpha_spec(), alpha_pow_1(), 69) == acc_1_69(),
{
    lemma_acc_1_68();
    lemma_alpha_x_68();
    lemma_alpha_byte_facts();
    reveal(bytes_p_1_69);
    reveal(alpha_pow_1);
    reveal(acc_1_68);
    reveal(acc_1_69);
    reveal(alpha_x_68);
    assert(bits_of_bytes(alpha_pow_1())[68] == bit_of(28u8, 4));
    assert(shift_add_mul(alpha_spec(), alpha_pow_1(), 69) =~= acc_1_69());
}

proof fn lemma_acc_1_70()
    ensures
        shift_add_mul(alpha_spec(), alpha_pow_1(), 70) == acc_1_70(),
{
    lemma_acc_1_69();
    lemma_alpha_x_69();
    lemma_alpha_byte_facts();
    reveal(bytes_p_1_70);
    reveal(alpha_pow_1);
    reveal(acc_1_69);
    reveal(acc_1_70);
    reveal(alpha_x_69);
    assert(bits_of_bytes(alpha_pow_1())[69] == bit_of(28u8, 5));
    assert(shift_add_mul(alpha_spec(), alpha_pow_1(), 70) =~= acc_1_70());
}

proof fn lemma_acc_1_71()
    ensures
        shift_add_mul(alpha_spec(), alpha_pow_1(), 71) == acc_1_71(),
{
    lemma_acc_1_70();
    lemma_alpha_x_70();
    lemma_alpha_byte_facts();
    reveal(bytes_p_1_71);
    reveal(alpha_pow_1);
    reveal(acc_1_70);
    reveal(acc_1_71);
    reveal(alpha_x_70);
    assert(bits_of_bytes(alpha_pow_1())[70] == bit_of(28u8, 6));
    assert(shift_add_mul(alpha_spec(), alpha_pow_1(), 71) =~= acc_1_71());
}

proof fn lemma_acc_1_72()
    ensures
        shift_add_mul(alpha_spec(), alpha_pow_1(), 72) == acc_1_72(),
{
    lemma_acc_1_71();
    lemma_alpha_x_71();
    lemma_alpha_byte_facts();
    reveal(bytes_p_1_72);
    reveal(alpha_pow_1);
    reveal(acc_1_71);
    reveal(acc_1_72);
    reveal(alpha_x_71);
    assert(bits_of_bytes(alpha_pow_1())[71] == bit_of(28u8, 7));
    assert(shift_add_mul(alpha_spec(), alpha_pow_1(), 72) =~= acc_1_72());
}

proof fn lemma_acc_1_73()
    ensures
        shift_add_mul(alpha_spec(), alpha_pow_1(), 73) == acc_1_73(),
{
    lemma_acc_1_72();
    lemma_alpha_x_72();
    lemma_alpha_byte_facts();
    reveal(bytes_p_1_73);
    reveal(alpha_pow_1);
    reveal(acc_1_72);
    reveal(acc_1_73);
    reveal(alpha_x_72);
    assert(bits_of_bytes(alpha_pow_1())[72] == bit_of(154u8, 0));
    assert(shift_add_mul(alpha_spec(), alpha_pow_1(), 73) =~= acc_1_73());
}

proof fn lemma_acc_1_74()
    ensures
        shift_add_mul(alpha_spec(), alpha_pow_1(), 74) == acc_1_74(),
{
    lemma_acc_1_73();
    lemma_alpha_x_73();
    lemma_alpha_byte_facts();
    reveal(bytes_p_1_74);
    reveal(alpha_pow_1);
    reveal(acc_1_73);
    reveal(acc_1_74);
    reveal(alpha_x_73);
    assert(bits_of_bytes(alpha_pow_1())[73] == bit_of(154u8, 1));
    assert(shift_add_mul(alpha_spec(), alpha_pow_1(), 74) =~= acc_1_74());
}

proof fn lemma_acc_1_75()
    ensures
        shift_add_mul(alpha_spec(), alpha_pow_1(), 75) == acc_1_75(),
{
    lemma_acc_1_74();
    lemma_alpha_x_74();
    lemma_alpha_byte_facts();
    reveal(bytes_p_1_75);
    reveal(alpha_pow_1);
    reveal(acc_1_74);
    reveal(acc_1_75);
    reveal(alpha_x_74);
    assert(bits_of_bytes(alpha_pow_1())[74] == bit_of(154u8, 2));
    assert(shift_add_mul(alpha_spec(), alpha_pow_1(), 75) =~= acc_1_75());
}

proof fn lemma_acc_1_76()
    ensures
        shift_add_mul(alpha_spec(), alpha_pow_1(), 76) == acc_1_76(),
{
    lemma_acc_1_75();
    lemma_alpha_x_75();
    lemma_alpha_byte_facts();
    reveal(bytes_p_1_76);
    reveal(alpha_pow_1);
    reveal(acc_1_75);
    reveal(acc_1_76);
    reveal(alpha_x_75);
    assert(bits_of_bytes(alpha_pow_1())[75] == bit_of(154u8, 3));
    assert(shift_add_mul(alpha_spec(), alpha_pow_1(), 76) =~= acc_1_76());
}

proof fn lemma_acc_1_77()
    ensures
        shift_add_mul(alpha_spec(), alpha_pow_1(), 77) == acc_1_77(),
{
    lemma_acc_1_76();
    lemma_alpha_x_76();
    lemma_alpha_byte_facts();
    reveal(bytes_p_1_77);
    reveal(alpha_pow_1);
    reveal(acc_1_76);
    reveal(acc_1_77);
    reveal(alpha_x_76);
    assert(bits_of_bytes(alpha_pow_1())[76] == bit_of(154u8, 4));
    assert(shift_add_mul(alpha_spec(), alpha_pow_1(), 77) =~= acc_1_77());
}

proof fn lemma_acc_1_78()
    ensures
        shift_add_mul(alpha_spec(), alpha_pow_1(), 78) == acc_1_78(),
{
    lemma_acc_1_77();
    lemma_alpha_x_77();
    lemma_alpha_byte_facts();
    reveal(bytes_p_1_78);
    reveal(alpha_pow_1);
    reveal(acc_1_77);
    reveal(acc_1_78);
    reveal(alpha_x_77);
    assert(bits_of_bytes(alpha_pow_1())[77] == bit_of(154u8, 5));
    assert(shift_add_mul(alpha_spec(), alpha_pow_1(), 78) =~= acc_1_78());
}

proof fn lemma_acc_1_79()
    ensures
        shift_add_mul(alpha_spec(), alpha_pow_1(), 79) == acc_1_79(),
{
    lemma_acc_1_78();
    lemma_alpha_x_78();
    lemma_alpha_byte_facts();
    reveal(bytes_p_1_79);
    reveal(alpha_pow_1);
    reveal(acc_1_78);
    reveal(acc_1_79);
    reveal(alpha_x_78);
    assert(bits_of_bytes(alpha_pow_1())[78] == bit_of(154u8, 6));
    assert(shift_add_mul(alpha_spec(), alpha_pow_1(), 79) =~= acc_1_79());
}

proof fn lemma_acc_1_80()
    ensures
        shift_add_mul(alpha_spec(), alpha_pow_1(), 80) == acc_1_80(),
{
    lemma_acc_1_79();
    lemma_alpha_x_79();
    lemma_alpha_byte_facts();
    reveal(bytes_p_1_80);
    reveal(alpha_pow_1);
    reveal(acc_1_79);
    reveal(acc_1_80);
    reveal(alpha_x_79);
    assert(bits_of_bytes(alpha_pow_1())[79] == bit_of(154u8, 7));
    assert(shift_add_mul(alpha_spec(), alpha_pow_1(), 80) =~= acc_1_80());
}

proof fn lemma_acc_1_81()
    ensures
        shift_add_mul(alpha_spec(), alpha_pow_1(), 81) == acc_1_81(),
{
    lemma_acc_1_80();
    lemma_alpha_x_80();
    lemma_alpha_byte_facts();
    reveal(bytes_p_1_81);
    reveal(alpha_pow_1);
    reveal(acc_1_80);
    reveal(acc_1_81);
    reveal(alpha_x_80);
    assert(bits_of_bytes(alpha_pow_1())[80] == bit_of(151u8, 0));
    assert(shift_add_mul(alpha_spec(), alpha_pow_1(), 81) =~= acc_1_81());
}

proof fn lemma_acc_1_82()
    ensures
        shift_add_mul(alpha_spec(), alpha_pow_1(), 82) == acc_1_82(),
{
    lemma_acc_1_81();
    lemma_alpha_x_81();
    lemma_alpha_byte_facts();
    reveal(bytes_p_1_82);
    reveal(alpha_pow_1);
    reveal(acc_1_81);
    reveal(acc_1_82);
    reveal(alpha_x_81);
    assert(bits_of_bytes(alpha_pow_1())[81] == bit_of(151u8, 1));
    assert(shift_add_mul(alpha_spec(), alpha_pow_1(), 82) =~= acc_1_82());
}

proof fn lemma_acc_1_83()
    ensures
        shift_add_mul(alpha_spec(), alpha_pow_1(), 83) == acc_1_83(),
{
    lemma_acc_1_82();
    lemma_alpha_x_82();
    lemma_alpha_byte_facts();
    reveal(bytes_p_1_83);
    reveal(alpha_pow_1);
    reveal(acc_1_82);
    reveal(acc_1_83);
    reveal(alpha_x_82);
    assert(bits_of_bytes(alpha_pow_1())[82] == bit_of(151u8, 2));
    assert(shift_add_mul(alpha_spec(), alpha_pow_1(), 83) =~= acc_1_83());
}

proof fn lemma_acc_1_84()
    ensures
        shift_add_mul(alpha_spec(), alpha_pow_1(), 84) == acc_1_84(),
{
    lemma_acc_1_83();
    lemma_alpha_x_83();
    lemma_alpha_byte_facts();
    reveal(bytes_p_1_84);
    reveal(alpha_pow_1);
    reveal(acc_1_83);
    reveal(acc_1_84);
    reveal(alpha_x_83);
    assert(bits_of_bytes(alpha_pow_1())[83] == bit_of(151u8, 3));
    assert(shift_add_mul(alpha_spec(), alpha_pow_1(), 84) =~= acc_1_84());
}

proof fn lemma_acc_1_85()
    ensures
        shift_add_mul(alpha_spec(), alpha_pow_1(), 85) == acc_1_85(),
{
    lemma_acc_1_84();
    lemma_alpha_x_84();
    lemma_alpha_byte_facts();
    reveal(bytes_p_1_85);
    reveal(alpha_pow_1);
    reveal(acc_1_84);
    reveal(acc_1_85);
    reveal(alpha_x_84);
    assert(bits_of_bytes(alpha_pow_1())[84] == bit_of(151u8, 4));
    assert(shift_add_mul(alpha_spec(), alpha_pow_1(), 85) =~= acc_1_85());
}

proof fn lemma_acc_1_86()
    ensures
        shift_add_mul(alpha_spec(), alpha_pow_1(), 86) == acc_1_86(),
{
    lemma_acc_1_85();
    lemma_alpha_x_85();
    lemma_alpha_byte_facts();
    reveal(bytes_p_1_86);
    reveal(alpha_pow_1);
    reveal(acc_1_85);
    reveal(acc_1_86);
    reveal(alpha_x_85);
    assert(bits_of_bytes(alpha_pow_1())[85] == bit_of(151u8, 5));
    assert(shift_add_mul(alpha_spec(), alpha_pow_1(), 86) =~= acc_1_86());
}

proof fn lemma_acc_1_87()
    ensures
        shift_add_mul(alpha_spec(), alpha_pow_1(), 87) == acc_1_87(),
{
    lemma_acc_1_86();
    lemma_alpha_x_86();
    lemma_alpha_byte_facts();
    reveal(bytes_p_1_87);
    reveal(alpha_pow_1);
    reveal(acc_1_86);
    reveal(acc_1_87);
    reveal(alpha_x_86);
    assert(bits_of_bytes(alpha_pow_1())[86] == bit_of(151u8, 6));
    assert(shift_add_mul(alpha_spec(), alpha_pow_1(), 87) =~= acc_1_87());
}

proof fn lemma_acc_1_88()
    ensures
        shift_add_mul(alpha_spec(), alpha_pow_1(), 88) == acc_1_88(),
{
    lemma_acc_1_87();
    lemma_alpha_x_87();
    lemma_alpha_byte_facts();
    reveal(bytes_p_1_88);
    reveal(alpha_pow_1);
    reveal(acc_1_87);
    reveal(acc_1_88);
    reveal(alpha_x_87);
    assert(bits_of_bytes(alpha_pow_1())[87] == bit_of(151u8, 7));
    assert(shift_add_mul(alpha_spec(), alpha_pow_1(), 88) =~= acc_1_88());
}

proof fn lemma_acc_1_89()
    ensures
        shift_add_mul(alpha_spec(), alpha_pow_1(), 89) == acc_1_89(),
{
    lemma_acc_1_88();
    lemma_alpha_x_88();
    lemma_alpha_byte_facts();
    reveal(bytes_p_1_89);
    reveal(alpha_pow_1);
    reveal(acc_1_88);
    reveal(acc_1_89);
    reveal(alpha_x_88);
    assert(bits_of_bytes(alpha_pow_1())[88] == bit_of(169u8, 0));
    assert(shift_add_mul(alpha_spec(), alpha_pow_1(), 89) =~= acc_1_89());
}

proof fn lemma_acc_1_90()
    ensures
        shift_add_mul(alpha_spec(), alpha_pow_1(), 90) == acc_1_90(),
{
    lemma_acc_1_89();
    lemma_alpha_x_89();
    lemma_alpha_byte_facts();
    reveal(bytes_p_1_90);
    reveal(alpha_pow_1);
    reveal(acc_1_89);
    reveal(acc_1_90);
    reveal(alpha_x_89);
    assert(bits_of_bytes(alpha_pow_1())[89] == bit_of(169u8, 1));
    assert(shift_add_mul(alpha_spec(), alpha_pow_1(), 90) =~= acc_1_90());
}

proof fn lemma_acc_1_91()
    ensures
        shift_add_mul(alpha_spec(), alpha_pow_1(), 91) == acc_1_91(),
{
    lemma_acc_1_90();
    lemma_alpha_x_90();
    lemma_alpha_byte_facts();
    reveal(bytes_p_1_91);
    reveal(alpha_pow_1);
    reveal(acc_1_90);
    reveal(acc_1_91);
    reveal(alpha_x_90);
    assert(bits_of_bytes(alpha_pow_1())[90] == bit_of(169u8, 2));
    assert(shift_add_mul(alpha_spec(), alpha_pow_1(), 91) =~= acc_1_91());
}

proof fn lemma_acc_1_92()
    ensures
        shift_add_mul(alpha_spec(), alpha_pow_1(), 92) == acc_1_92(),
{
    lemma_acc_1_91();
    lemma_alpha_x_91();
    lemma_alpha_byte_facts();
    reveal(bytes_p_1_92);
    reveal(alpha_pow_1);
    reveal(acc_1_91);
    reveal(acc_1_92);
    reveal(alpha_x_91);
    assert(bits_of_bytes(alpha_pow_1())[91] == bit_of(169u8, 3));
    assert(shift_add_mul(alpha_spec(), alpha_pow_1(), 92) =~= acc_1_92());
}

proof fn lemma_acc_1_93()
    ensures
        shift_add_mul(alpha_spec(), alpha_pow_1(), 93) == acc_1_93(),
{
    lemma_acc_1_92();
    lemma_alpha_x_92();
    lemma_alpha_byte_facts();
    reveal(bytes_p_1_93);
    reveal(alpha_pow_1);
    reveal(acc_1_92);
    reveal(acc_1_93);
    reveal(alpha_x_92);
    assert(bits_of_bytes(alpha_pow_1())[92] == bit_of(169u8, 4));
    assert(shift_add_mul(alpha_spec(), alpha_pow_1(), 93) =~= acc_1_93());
}

proof fn lemma_acc_1_94()
    ensures
        shift_add_mul(alpha_spec(), alpha_pow_1(), 94) == acc_1_94(),
{
    lemma_acc_1_93();
    lemma_alpha_x_93();
    lemma_alpha_byte_facts();
    reveal(bytes_p_1_94);
    reveal(alpha_pow_1);
    reveal(acc_1_93);
    reveal(acc_1_94);
    reveal(alpha_x_93);
    assert(bits_of_bytes(alpha_pow_1())[93] == bit_of(169u8, 5));
    assert(shift_add_mul(alpha_spec(), alpha_pow_1(), 94) =~= acc_1_94());
}

proof fn lemma_acc_1_95()
    ensures
        shift_add_mul(alpha_spec(), alpha_pow_1(), 95) == acc_1_95(),
{
    lemma_acc_1_94();
    lemma_alpha_x_94();
    lemma_alpha_byte_facts();
    reveal(bytes_p_1_95);
    reveal(alpha_pow_1);
    reveal(acc_1_94);
    reveal(acc_1_95);
    reveal(alpha_x_94);
    assert(bits_of_bytes(alpha_pow_1())[94] == bit_of(169u8, 6));
    assert(shift_add_mul(alpha_spec(), alpha_pow_1(), 95) =~= acc_1_95());
}

proof fn lemma_acc_1_96()
    ensures
        shift_add_mul(alpha_spec(), alpha_pow_1(), 96) == acc_1_96(),
{
    lemma_acc_1_95();
    lemma_alpha_x_95();
    lemma_alpha_byte_facts();
    reveal(bytes_p_1_96);
    reveal(alpha_pow_1);
    reveal(acc_1_95);
    reveal(acc_1_96);
    reveal(alpha_x_95);
    assert(bits_of_bytes(alpha_pow_1())[95] == bit_of(169u8, 7));
    assert(shift_add_mul(alpha_spec(), alpha_pow_1(), 96) =~= acc_1_96());
}

proof fn lemma_acc_1_97()
    ensures
        shift_add_mul(alpha_spec(), alpha_pow_1(), 97) == acc_1_97(),
{
    lemma_acc_1_96();
    lemma_alpha_x_96();
    lemma_alpha_byte_facts();
    reveal(bytes_p_1_97);
    reveal(alpha_pow_1);
    reveal(acc_1_96);
    reveal(acc_1_97);
    reveal(alpha_x_96);
    assert(bits_of_bytes(alpha_pow_1())[96] == bit_of(85u8, 0));
    assert(shift_add_mul(alpha_spec(), alpha_pow_1(), 97) =~= acc_1_97());
}

proof fn lemma_acc_1_98()
    ensures
        shift_add_mul(alpha_spec(), alpha_pow_1(), 98) == acc_1_98(),
{
    lemma_acc_1_97();
    lemma_alpha_x_97();
    lemma_alpha_byte_facts();
    reveal(bytes_p_1_98);
    reveal(alpha_pow_1);
    reveal(acc_1_97);
    reveal(acc_1_98);
    reveal(alpha_x_97);
    assert(bits_of_bytes(alpha_pow_1())[97] == bit_of(85u8, 1));
    assert(shift_add_mul(alpha_spec(), alpha_pow_1(), 98) =~= acc_1_98());
}

proof fn lemma_acc_1_99()
    ensures
        shift_add_mul(alpha_spec(), alpha_pow_1(), 99) == acc_1_99(),
{
    lemma_acc_1_98();
    lemma_alpha_x_98();
    lemma_alpha_byte_facts();
    reveal(bytes_p_1_99);
    reveal(alpha_pow_1);
    reveal(acc_1_98);
    reveal(acc_1_99);
    reveal(alpha_x_98);
    assert(bits_of_bytes(alpha_pow_1())[98] == bit_of(85u8, 2));
    assert(shift_add_mul(alpha_spec(), alpha_pow_1(), 99) =~= acc_1_99());
}

proof fn lemma_acc_1_100()
    ensures
        shift_add_mul(alpha_spec(), alpha_pow_1(), 100) == acc_1_100(),
{
    lemma_acc_1_99();
    lemma_alpha_x_99();
    lemma_alpha_byte_facts();
    reveal(bytes_p_1_100);
    reveal(alpha_pow_1);
    reveal(acc_1_99);
    reveal(acc_1_100);
    reveal(alpha_x_99);
    assert(bits_of_bytes(alpha_pow_1())[99] == bit_of(85u8, 3));
    assert(shift_add_mul(alpha_spec(), alpha_pow_1(), 100) =~= acc_1_100());
}

proof fn lemma_acc_1_101()
    ensures
        shift_add_mul(alpha_spec(), alpha_pow_1(), 101) == acc_1_101(),
{
    lemma_acc_1_100();
    lemma_alpha_x_100();
    lemma_alpha_byte_facts();
    reveal(bytes_p_1_101);
    reveal(alpha_pow_1);
    reveal(acc_1_100);
    reveal(acc_1_101);
    reveal(alpha_x_100);
    assert(bits_of_bytes(alpha_pow_1())[100] == bit_of(85u8, 4));
    assert(shift_add_mul(alpha_spec(), alpha_pow_1(), 101) =~= acc_1_101());
}

proof fn lemma_acc_1_102()
    ensures
        shift_add_mul(alpha_spec(), alpha_pow_1(), 102) == acc_1_102(),
{
    lemma_acc_1_101();
    lemma_alpha_x_101();
    lemma_alpha_byte_facts();
    reveal(bytes_p_1_102);
    reveal(alpha_pow_1);
    reveal(acc_1_101);
    reveal(acc_1_102);
    reveal(alpha_x_101);
    assert(bits_of_bytes(alpha_pow_1())[101] == bit_of(85u8, 5));
    assert(shift_add_mul(alpha_spec(), alpha_pow_1(), 102) =~= acc_1_102());
}

proof fn lemma_acc_1_103()
    ensures
        shift_add_mul(alpha_spec(), alpha_pow_1(), 103) == acc_1_103(),
{
    lemma_acc_1_102();
    lemma_alpha_x_102();
    lemma_alpha_byte_facts();
    reveal(bytes_p_1_103);
    reveal(alpha_pow_1);
    reveal(acc_1_102);
    reveal(acc_1_103);
    reveal(alpha_x_102);
    assert(bits_of_bytes(alpha_pow_1())[102] == bit_of(85u8, 6));
    assert(shift_add_mul(alpha_spec(), alpha_pow_1(), 103) =~= acc_1_103());
}

proof fn lemma_acc_1_104()
    ensures
        shift_add_mul(alpha_spec(), alpha_pow_1(), 104) == acc_1_104(),
{
    lemma_acc_1_103();
    lemma_alpha_x_103();
    lemma_alpha_byte_facts();
    reveal(bytes_p_1_104);
    reveal(alpha_pow_1);
    reveal(acc_1_103);
    reveal(acc_1_104);
    reveal(alpha_x_103);
    assert(bits_of_bytes(alpha_pow_1())[103] == bit_of(85u8, 7));
    assert(shift_add_mul(alpha_spec(), alpha_pow_1(), 104) =~= acc_1_104());
}

proof fn lemma_acc_1_105()
    ensures
        shift_add_mul(alpha_spec(), alpha_pow_1(), 105) == acc_1_105(),
{
    lemma_acc_1_104();
    lemma_alpha_x_104();
    lemma_alpha_byte_facts();
    reveal(bytes_p_1_105);
    reveal(alpha_pow_1);
    reveal(acc_1_104);
    reveal(acc_1_105);
    reveal(alpha_x_104);
    assert(bits_of_bytes(alpha_pow_1())[104] == bit_of(133u8, 0));
    assert(shift_add_mul(alpha_spec(), alpha_pow_1(), 105) =~= acc_1_105());
}

proof fn lemma_acc_1_106()
    ensures
        shift_add_mul(alpha_spec(), alpha_pow_1(), 106) == acc_1_106(),
{
    lemma_acc_1_105();
    lemma_alpha_x_105();
    lemma_alpha_byte_facts();
    reveal(bytes_p_1_106);
    reveal(alpha_pow_1);
    reveal(acc_1_105);
    reveal(acc_1_106);
    reveal(alpha_x_105);
    assert(bits_of_bytes(alpha_pow_1())[105] == bit_of(133u8, 1));
    assert(shift_add_mul(alpha_spec(), alpha_pow_1(), 106) =~= acc_1_106());
}

proof fn lemma_acc_1_107()
    ensures
        shift_add_mul(alpha_spec(), alpha_pow_1(), 107) == acc_1_107(),
{
    lemma_acc_1_106();
    lemma_alpha_x_106();
    lemma_alpha_byte_facts();
    reveal(bytes_p_1_107);
    reveal(alpha_pow_1);
    reveal(acc_1_106);
    reveal(acc_1_107);
    reveal(alpha_x_106);
    assert(bits_of_bytes(alpha_pow_1())[106] == bit_of(133u8, 2));
    assert(shift_add_mul(alpha_spec(), alpha_pow_1(), 107) =~= acc_1_107());
}

proof fn lemma_acc_1_108()
    ensures
        shift_add_mul(alpha_spec(), alpha_pow_1(), 108) == acc_1_108(),
{
    lemma_acc_1_107();
    lemma_alpha_x_107();
    lemma_alpha_byte_facts();
    reveal(bytes_p_1_108);
    reveal(alpha_pow_1);
    reveal(acc_1_107);
    reveal(acc_1_108);
    reveal(alpha_x_107);
    assert(bits_of_bytes(alpha_pow_1())[107] == bit_of(133u8, 3));
    assert(shift_add_mul(alpha_spec(), alpha_pow_1(), 108) =~= acc_1_108());
}

proof fn lemma_acc_1_109()
    ensures
        shift_add_mul(alpha_spec(), alpha_pow_1(), 109) == acc_1_109(),
{
    lemma_acc_1_108();
    lemma_alpha_x_108();
    lemma_alpha_byte_facts();
    reveal(bytes_p_1_109);
    reveal(alpha_pow_1);
    reveal(acc_1_108);
    reveal(acc_1_109);
    reveal(alpha_x_108);
    assert(bits_of_bytes(alpha_pow_1())[108] == bit_of(133u8, 4));
    assert(shift_add_mul(alpha_spec(), alpha_pow_1(), 109) =~= acc_1_109());
}

proof fn lemma_acc_1_110()
    ensures
        shift_add_mul(alpha_spec(), alpha_pow_1(), 110) == acc_1_110(),
{
    lemma_acc_1_109();
    lemma_alpha_x_109();
    lemma_alpha_byte_facts();
    reveal(bytes_p_1_110);
    reveal(alpha_pow_1);
    reveal(acc_1_109);
    reveal(acc_1_110);
    reveal(alpha_x_109);
    assert(bits_of_bytes(alpha_pow_1())[109] == bit_of(133u8, 5));
    assert(shift_add_mul(alpha_spec(), alpha_pow_1(), 110) =~= acc_1_110());
}

proof fn lemma_acc_1_111()
    ensures
        shift_add_mul(alpha_spec(), alpha_pow_1(), 111) == acc_1_111(),
{
    lemma_acc_1_110();
    lemma_alpha_x_110();
    lemma_alpha_byte_facts();
    reveal(bytes_p_1_111);
    reveal(alpha_pow_1);
    reveal(acc_1_110);
    reveal(acc_1_111);
    reveal(alpha_x_110);
    assert(bits_of_bytes(alpha_pow_1())[110] == bit_of(133u8, 6));
    assert(shift_add_mul(alpha_spec(), alpha_pow_1(), 111) =~= acc_1_111());
}

proof fn lemma_acc_1_112()
    ensures
        shift_add_mul(alpha_spec(), alpha_pow_1(), 112) == acc_1_112(),
{
    lemma_acc_1_111();
    lemma_alpha_x_111();
    lemma_alpha_byte_facts();
    reveal(bytes_p_1_112);
    reveal(alpha_pow_1);
    reveal(acc_1_111);
    reveal(acc_1_112);
    reveal(alpha_x_111);
    assert(bits_of_bytes(alpha_pow_1())[111] == bit_of(133u8, 7));
    assert(shift_add_mul(alpha_spec(), alpha_pow_1(), 112) =~= acc_1_112());
}

proof fn lemma_acc_1_113()
    ensures
        shift_add_mul(alpha_spec(), alpha_pow_1(), 113) == acc_1_113(),
{
    lemma_acc_1_112();
    lemma_alpha_x_112();
    lemma_alpha_byte_facts();
    reveal(bytes_p_1_113);
    reveal(alpha_pow_1);
    reveal(acc_1_112);
    reveal(acc_1_113);
    reveal(alpha_x_112);
    assert(bits_of_bytes(alpha_pow_1())[112] == bit_of(61u8, 0));
    assert(shift_add_mul(alpha_spec(), alpha_pow_1(), 113) =~= acc_1_113());
}

proof fn lemma_acc_1_114()
    ensures
        shift_add_mul(alpha_spec(), alpha_pow_1(), 114) == acc_1_114(),
{
    lemma_acc_1_113();
    lemma_alpha_x_113();
    lemma_alpha_byte_facts();
    reveal(bytes_p_1_114);
    reveal(alpha_pow_1);
    reveal(acc_1_113);
    reveal(acc_1_114);
    reveal(alpha_x_113);
    assert(bits_of_bytes(alpha_pow_1())[113] == bit_of(61u8, 1));
    assert(shift_add_mul(alpha_spec(), alpha_pow_1(), 114) =~= acc_1_114());
}

proof fn lemma_acc_1_115()
    ensures
        shift_add_mul(alpha_spec(), alpha_pow_1(), 115) == acc_1_115(),
{
    lemma_acc_1_114();
    lemma_alpha_x_114();
    lemma_alpha_byte_facts();
    reveal(bytes_p_1_115);
    reveal(alpha_pow_1);
    reveal(acc_1_114);
    reveal(acc_1_115);
    reveal(alpha_x_114);
    assert(bits_of_bytes(alpha_pow_1())[114] == bit_of(61u8, 2));
    assert(shift_add_mul(alpha_spec(), alpha_pow_1(), 115) =~= acc_1_115());
}

proof fn lemma_acc_1_116()
    ensures
        shift_add_mul(alpha_spec(), alpha_pow_1(), 116) == acc_1_116(),
{
    lemma_acc_1_115();
    lemma_alpha_x_115();
    lemma_alpha_byte_facts();
    reveal(bytes_p_1_116);
    reveal(alpha_pow_1);
    reveal(acc_1_115);
    reveal(acc_1_116);
    reveal(alpha_x_115);
    assert(bits_of_bytes(alpha_pow_1())[115] == bit_of(61u8, 3));
    assert(shift_add_mul(alpha_spec(), alpha_pow_1(), 116) =~= acc_1_116());
}

proof fn lemma_acc_1_117()
    ensures
        shift_add_mul(alpha_spec(), alpha_pow_1(), 117) == acc_1_117(),
{
    lemma_acc_1_116();
    lemma_alpha_x_116();
    lemma_alpha_byte_facts();
    reveal(bytes_p_1_117);
    reveal(alpha_pow_1);
    reveal(acc_1_116);
    reveal(acc_1_117);
    reveal(alpha_x_116);
    assert(bits_of_bytes(alpha_pow_1())[116] == bit_of(61u8, 4));
    assert(shift_add_mul(alpha_spec(), alpha_pow_1(), 117) =~= acc_1_117());
}

proof fn lemma_acc_1_118()
    ensures
        shift_add_mul(alpha_spec(), alpha_pow_1(), 118) == acc_1_118(),
{
    lemma_acc_1_117();
    lemma_alpha_x_117();
    lemma_alpha_byte_facts();
    reveal(bytes_p_1_118);
    reveal(alpha_pow_1);
    reveal(acc_1_117);
    reveal(acc_1_118);
    reveal(alpha_x_117);
    assert(bits_of_bytes(alpha_pow_1())[117] == bit_of(61u8, 5));
    assert(shift_add_mul(alpha_spec(), alpha_pow_1(), 118) =~= acc_1_118());
}

proof fn lemma_acc_1_119()
    ensures
        shift_add_mul(alpha_spec(), alpha_pow_1(), 119) == acc_1_119(),
{
    lemma_acc_1_118();
    lemma_alpha_x_118();
    lemma_alpha_byte_facts();
    reveal(bytes_p_1_119);
    reveal(alpha_pow_1);
    reveal(acc_1_118);
    reveal(acc_1_119);
    reveal(alpha_x_118);
    assert(bits_of_bytes(alpha_pow_1())[118] == bit_of(61u8, 6));
    assert(shift_add_mul(alpha_spec(), alpha_pow_1(), 119) =~= acc_1_119());
}

proof fn lemma_acc_1_120()
    ensures
        shift_add_mul(alpha_spec(), alpha_pow_1(), 120) == acc_1_120(),
{
    lemma_acc_1_119();
    lemma_alpha_x_119();
    lemma_alpha_byte_facts();
    reveal(bytes_p_1_120);
    reveal(alpha_pow_1);
    reveal(acc_1_119);
    reveal(acc_1_120);
    reveal(alpha_x_119);
    assert(bits_of_bytes(alpha_pow_1())[119] == bit_of(61u8, 7));
    assert(shift_add_mul(alpha_spec(), alpha_pow_1(), 120) =~= acc_1_120());
}

proof fn lemma_acc_1_121()
    ensures
        shift_add_mul(alpha_spec(), alpha_pow_1(), 121) == acc_1_121(),
{
    lemma_acc_1_120();
    lemma_alpha_x_120();
    lemma_alpha_byte_facts();
    reveal(bytes_p_1_121);
    reveal(alpha_pow_1);
    reveal(acc_1_120);
    reveal(acc_1_121);
    reveal(alpha_x_120);
    assert(bits_of_bytes(alpha_pow_1())[120] == bit_of(5u8, 0));
    assert(shift_add_mul(alpha_spec(), alpha_pow_1(), 121) =~= acc_1_121());
}

proof fn lemma_acc_1_122()
    ensures
        shift_add_mul(alpha_spec(), alpha_pow_1(), 122) == acc_1_122(),
{
    lemma_acc_1_121();
    lemma_alpha_x_121();
    lemma_alpha_byte_facts();
    reveal(bytes_p_1_122);
    reveal(alpha_pow_1);
    reveal(acc_1_121);
    reveal(acc_1_122);
    reveal(alpha_x_121);
    assert(bits_of_bytes(alpha_pow_1())[121] == bit_of(5u8, 1));
    assert(shift_add_mul(alpha_spec(), alpha_pow_1(), 122) =~= acc_1_122());
}

proof fn lemma_acc_1_123()
    ensures
        shift_add_mul(alpha_spec(), alpha_pow_1(), 123) == acc_1_123(),
{
    lemma_acc_1_122();
    lemma_alpha_x_122();
    lemma_alpha_byte_facts();
    reveal(bytes_p_1_123);
    reveal(alpha_pow_1);
    reveal(acc_1_122);
    reveal(acc_1_123);
    reveal(alpha_x_122);
    assert(bits_of_bytes(alpha_pow_1())[122] == bit_of(5u8, 2));
    assert(shift_add_mul(alpha_spec(), alpha_pow_1(), 123) =~= acc_1_123());
}

proof fn lemma_acc_1_124()
    ensures
        shift_add_mul(alpha_spec(), alpha_pow_1(), 124) == acc_1_124(),
{
    lemma_acc_1_123();
    lemma_alpha_x_123();
    lemma_alpha_byte_facts();
    reveal(bytes_p_1_124);
    reveal(alpha_pow_1);
    reveal(acc_1_123);
    reveal(acc_1_124);
    reveal(alpha_x_123);
    assert(bits_of_bytes(alpha_pow_1())[123] == bit_of(5u8, 3));
    assert(shift_add_mul(alpha_spec(), alpha_pow_1(), 124) =~= acc_1_124());
}

proof fn lemma_acc_1_125()
    ensures
        shift_add_mul(alpha_spec(), alpha_pow_1(), 125) == acc_1_125(),
{
    lemma_acc_1_124();
    lemma_alpha_x_124();
    lemma_alpha_byte_facts();
    reveal(bytes_p_1_125);
    reveal(alpha_pow_1);
    reveal(acc_1_124);
    reveal(acc_1_125);
    reveal(alpha_x_124);
    assert(bits_of_bytes(alpha_pow_1())[124] == bit_of(5u8, 4));
    assert(shift_add_mul(alpha_spec(), alpha_pow_1(), 125) =~= acc_1_125());
}

proof fn lemma_acc_1_126()
    ensures
        shift_add_mul(alpha_spec(), alpha_pow_1(), 126) == acc_1_126(),
{
    lemma_acc_1_125();
    lemma_alpha_x_125();
    lemma_alpha_byte_facts();
    reveal(bytes_p_1_126);
    reveal(alpha_pow_1);
    reveal(acc_1_125);
    reveal(acc_1_126);
    reveal(alpha_x_125);
    assert(bits_of_bytes(alpha_pow_1())[125] == bit_of(5u8, 5));
    assert(shift_add_mul(alpha_spec(), alpha_pow_1(), 126) =~= acc_1_126());
}

proof fn lemma_acc_1_127()
    ensures
        shift_add_mul(alpha_spec(), alpha_pow_1(), 127) == acc_1_127(),
{
    lemma_acc_1_126();
    lemma_alpha_x_126();
    lemma_alpha_byte_facts();
    reveal(bytes_p_1_127);
    reveal(alpha_pow_1);
    reveal(acc_1_126);
    reveal(acc_1_127);
    reveal(alpha_x_126);
    assert(bits_of_bytes(alpha_pow_1())[126] == bit_of(5u8, 6));
    assert(shift_add_mul(alpha_spec(), alpha_pow_1(), 127) =~= acc_1_127());
}

proof fn lemma_acc_1_128()
    ensures
        shift_add_mul(alpha_spec(), alpha_pow_1(), 128) == acc_1_128(),
{
    lemma_acc_1_127();
    lemma_alpha_x_127();
    lemma_alpha_byte_facts();
    reveal(bytes_p_1_128);
    reveal(alpha_pow_1);
    reveal(acc_1_127);
    reveal(acc_1_128);
    reveal(alpha_x_127);
    assert(bits_of_bytes(alpha_pow_1())[127] == bit_of(5u8, 7));
    assert(shift_add_mul(alpha_spec(), alpha_pow_1(), 128) =~= acc_1_128());
}

#[verifier::opaque]
spec fn acc_2_0() -> Seq<u8> {
    seq![0u8, 0u8, 0u8, 0u8, 0u8, 0u8, 0u8, 0u8, 0u8, 0u8, 0u8, 0u8, 0u8, 0u8, 0u8, 0u8]
}

#[verifier::opaque]
spec fn acc_2_1() -> Seq<u8> {
    seq![13u8, 206u8, 96u8, 85u8, 172u8, 232u8, 63u8, 161u8, 28u8, 154u8, 151u8, 169u8, 85u8, 133u8, 61u8, 5u8]
}

#[verifier::opaque]
spec fn acc_2_2() -> Seq<u8> {
    seq![13u8, 206u8, 96u8, 85u8, 172u8, 232u8, 63u8, 161u8, 28u8, 154u8, 151u8, 169u8, 85u8, 133u8, 61u8, 5u8]
}

#[verifier::opaque]
spec fn acc_2_3() -> Seq<u8> {
    seq![13u8, 206u8, 96u8, 85u8, 172u8, 232u8, 63u8, 161u8, 28u8, 154u8, 151u8, 169u8, 85u8, 133u8, 61u8, 5u8]
}

#[verifier::opaque]
spec fn acc_2_4() -> Seq<u8> {
    seq![13u8, 206u8, 96u8, 85u8, 172u8, 232u8, 63u8, 161u8, 28u8, 154u8, 151u8, 169u8, 85u8, 133u8, 61u8, 5u8]
}

#[verifier::opaque]
spec fn acc_2_5() -> Seq<u8> {
    seq![13u8, 206u8, 96u8, 85u8, 172u8, 232u8, 63u8, 161u8, 28u8, 154u8, 151u8, 169u8, 85u8, 133u8, 61u8, 5u8]
}

#[verifier::opaque]
spec fn acc_2_6() -> Seq<u8> {
    seq![173u8, 15u8, 121u8, 249u8, 38u8, 253u8, 194u8, 134u8, 136u8, 217u8, 100u8, 155u8, 224u8, 47u8, 141u8, 162u8]
}

#[verifier::opaque]
spec fn acc_2_7() -> Seq<u8> {
    seq![106u8, 140u8, 74u8, 161u8, 51u8, 214u8, 56u8, 201u8, 160u8, 94u8, 130u8, 254u8, 138u8, 122u8, 236u8, 237u8]
}

#[verifier::opaque]
spec fn acc_2_8() -> Seq<u8> {
    seq![228u8, 139u8, 45u8, 17u8, 25u8, 128u8, 204u8, 86u8, 240u8, 80u8, 79u8, 53u8, 94u8, 208u8, 46u8, 115u8]
}

#[verifier::opaque]
spec fn acc_2_9() -> Seq<u8> {
    seq![228u8, 139u8, 45u8, 17u8, 25u8, 128u8, 204u8, 86u8, 240u8, 80u8, 79u8, 53u8, 94u8, 208u8, 46u8, 115u8]
}

#[verifier::opaque]
spec fn acc_2_10() -> Seq<u8> {
    seq![210u8, 148u8, 177u8, 208u8, 179u8, 216u8, 29u8, 41u8, 178u8, 105u8, 123u8, 26u8, 13u8, 123u8, 36u8, 8u8]
}

#[verifier::opaque]
spec fn acc_2_11() -> Seq<u8> {
    seq![190u8, 170u8, 137u8, 83u8, 230u8, 105u8, 191u8, 214u8, 54u8, 27u8, 19u8, 68u8, 171u8, 45u8, 49u8, 254u8]
}

#[verifier::opaque]
spec fn acc_2_12() -> Seq<u8> {
    seq![225u8, 214u8, 249u8, 85u8, 77u8, 11u8, 250u8, 41u8, 63u8, 254u8, 195u8, 248u8, 231u8, 128u8, 27u8, 18u8]
}

#[verifier::opaque]
spec fn acc_2_13() -> Seq<u8> {
    seq![225u8, 214u8, 249u8, 85u8, 77u8, 11u8, 250u8, 41u8, 63u8, 254u8, 195u8, 248u8, 231u8, 128u8, 27u8, 18u8]
}

#[verifier::opaque]
spec fn acc_2_14() -> Seq<u8> {
    seq![20u8, 38u8, 56u8, 76u8, 225u8, 129u8, 239u8, 212u8, 24u8, 106u8, 128u8, 11u8, 213u8, 53u8, 177u8, 162u8]
}

#[verifier::opaque]
spec fn acc_2_15() -> Seq<u8> {
    seq![20u8, 38u8, 56u8, 76u8, 225u8, 129u8, 239u8, 212u8, 24u8, 106u8, 128u8, 11u8, 213u8, 53u8, 177u8, 162u8]
}

#[verifier::opaque]
spec fn acc_2_16() -> Seq<u8> {
    seq![206u8, 228u8, 63u8, 43u8, 81u8, 171u8, 185u8, 32u8, 135u8, 58u8, 142u8, 198u8, 30u8, 225u8, 27u8, 96u8]
}

#[verifier::opaque]
spec fn acc_2_17() -> Seq<u8> {
    seq![206u8, 228u8, 63u8, 43u8, 81u8, 171u8, 185u8, 32u8, 135u8, 58u8, 142u8, 198u8, 30u8, 225u8, 27u8, 96u8]
}

#[verifier::opaque]
spec fn acc_2_18() -> Seq<u8> {
    seq![206u8, 228u8, 63u8, 43u8, 81u8, 171u8, 185u8, 32u8, 135u8, 58u8, 142u8, 198u8, 30u8, 225u8, 27u8, 96u8]
}

#[verifier::opaque]
spec fn acc_2_19() -> Seq<u8> {
    seq![206u8, 228u8, 63u8, 43u8, 81u8, 171u8, 185u8, 32u8, 135u8, 58u8, 142u8, 198u8, 30u8, 225u8, 27u8, 96u8]
}

#[verifier::opaque]
spec fn acc_2_20() -> Seq<u8> {
    seq![74u8, 207u8, 67u8, 91u8, 87u8, 0u8, 219u8, 101u8, 120u8, 51u8, 107u8, 22u8, 162u8, 173u8, 182u8, 74u8]
}

#[verifier::opaque]
spec fn acc_2_21() -> Seq<u8> {
    seq![74u8, 207u8, 67u8, 91u8, 87u8, 0u8, 219u8, 101u8, 120u8, 51u8, 107u8, 22u8, 162u8, 173u8, 182u8, 74u8]
}

#[verifier::opaque]
spec fn acc_2_22() -> Seq<u8> {
    seq![74u8, 207u8, 67u8, 91u8, 87u8, 0u8, 219u8, 101u8, 120u8, 51u8, 107u8, 22u8, 162u8, 173u8, 182u8, 74u8]
}

#[verifier::opaque]
spec fn acc_2_23() -> Seq<u8> {
    seq![74u8, 207u8, 67u8, 91u8, 87u8, 0u8, 219u8, 101u8, 120u8, 51u8, 107u8, 22u8, 162u8, 173u8, 182u8, 74u8]
}

#[verifier::opaque]
spec fn acc_2_24() -> Seq<u8> {
    seq![4u8, 118u8, 129u8, 92u8, 48u8, 176u8, 241u8, 51u8, 140u8, 172u8, 59u8, 24u8, 111u8, 102u8, 98u8, 224u8]
}

#[verifier::opaque]
spec fn acc_2_25() -> Seq<u8> {
    seq![4u8, 118u8, 129u8, 92u8, 48u8, 176u8, 241u8, 51u8, 140u8, 172u8, 59u8, 24u8, 111u8, 102u8, 98u8, 224u8]
}

#[verifier::opaque]
spec fn acc_2_26() -> Seq<u8> {
    seq![4u8, 118u8, 129u8, 92u8, 48u8, 176u8, 241u8, 51u8, 140u8, 172u8, 59u8, 24u8, 111u8, 102u8, 98u8, 224u8]
}

#[verifier::opaque]
spec fn acc_2_27() -> Seq<u8> {
    seq![239u8, 190u8, 148u8, 98u8, 8u8, 51u8, 164u8, 130u8, 46u8, 83u8, 191u8, 106u8, 7u8, 56u8, 196u8, 182u8]
}

#[verifier::opaque]
spec fn acc_2_28() -> Seq<u8> {
    seq![239u8, 190u8, 148u8, 98u8, 8u8, 51u8, 164u8, 130u8, 46u8, 83u8, 191u8, 106u8, 7u8, 56u8, 196u8, 182u8]
}

#[verifier::opaque]
spec fn acc_2_29() -> Seq<u8> {
    seq![196u8, 157u8, 195u8, 154u8, 232u8, 63u8, 242u8, 71u8, 164u8, 173u8, 172u8, 160u8, 166u8, 65u8, 93u8, 236u8]
}

#[verifier::opaque]
spec fn acc_2_30() -> Seq<u8> {
    seq![146u8, 219u8, 109u8, 106u8, 41u8, 38u8, 94u8, 205u8, 177u8, 80u8, 139u8, 52u8, 229u8, 178u8, 111u8, 89u8]
}

#[verifier::opaque]
spec fn acc_2_31() -> Seq<u8> {
    seq![146u8, 219u8, 109u8, 106u8, 41u8, 38u8, 94u8, 205u8, 177u8, 80u8, 139u8, 52u8, 229u8, 178u8, 111u8, 89u8]
}

#[verifier::opaque]
spec fn acc_2_32() -> Seq<u8> {
    seq![146u8, 219u8, 109u8, 106u8, 41u8, 38u8, 94u8, 205u8, 177u8, 80u8, 139u8, 52u8, 229u8, 178u8, 111u8, 89u8]
}

#[verifier::opaque]
spec fn acc_2_33() -> Seq<u8> {
    seq![146u8, 219u8, 109u8, 106u8, 41u8, 38u8, 94u8, 205u8, 177u8, 80u8, 139u8, 52u8, 229u8, 178u8, 111u8, 89u8]
}

#[verifier::opaque]
spec fn acc_2_34() -> Seq<u8> {
    seq![67u8, 187u8, 137u8, 96u8, 54u8, 186u8, 159u8, 103u8, 233u8, 129u8, 244u8, 118u8, 220u8, 134u8, 64u8, 10u8]
}

#[verifier::opaque]
spec fn acc_2_35() -> Seq<u8> {
    seq![67u8, 187u8, 137u8, 96u8, 54u8, 186u8, 159u8, 103u8, 233u8, 129u8, 244u8, 118u8, 220u8, 134u8, 64u8, 10u8]
}

#[verifier::opaque]
spec fn acc_2_36() -> Seq<u8> {
    seq![128u8, 56u8, 24u8, 75u8, 74u8, 202u8, 153u8, 204u8, 139u8, 196u8, 11u8, 127u8, 57u8, 86u8, 252u8, 70u8]
}

#[verifier::opaque]
spec fn acc_2_37() -> Seq<u8> {
    seq![128u8, 56u8, 24u8, 75u8, 74u8, 202u8, 153u8, 204u8, 139u8, 196u8, 11u8, 127u8, 57u8, 86u8, 252u8, 70u8]
}

#[verifier::opaque]
spec fn acc_2_38() -> Seq<u8> {
    seq![128u8, 56u8, 24u8, 75u8, 74u8, 202u8, 153u8, 204u8, 139u8, 196u8, 11u8, 127u8, 57u8, 86u8, 252u8, 70u8]
}

#[verifier::opaque]
spec fn acc_2_39() -> Seq<u8> {
    seq![150u8, 39u8, 148u8, 23u8, 171u8, 73u8, 170u8, 148u8, 158u8, 239u8, 241u8, 48u8, 17u8, 209u8, 26u8, 35u8]
}

#[verifier::opaque]
spec fn acc_2_40() -> Seq<u8> {
    seq![186u8, 25u8, 140u8, 174u8, 105u8, 78u8, 205u8, 36u8, 180u8, 185u8, 5u8, 175u8, 65u8, 223u8, 215u8, 232u8]
}

#[verifier::opaque]
spec fn acc_2_41() -> Seq<u8> {
    seq![101u8, 101u8, 188u8, 220u8, 236u8, 65u8, 3u8, 68u8, 225u8, 21u8, 237u8, 144u8, 224u8, 195u8, 77u8, 127u8]
}

#[verifier::opaque]
spec fn acc_2_42() -> Seq<u8> {
    seq![101u8, 101u8, 188u8, 220u8, 236u8, 65u8, 3u8, 68u8, 225u8, 21u8, 237u8, 144u8, 224u8, 195u8, 77u8, 127u8]
}

#[verifier::opaque]
spec fn acc_2_43() -> Seq<u8> {
    seq![101u8, 101u8, 188u8, 220u8, 236u8, 65u8, 3u8, 68u8, 225u8, 21u8, 237u8, 144u8, 224u8, 195u8, 77u8, 127u8]
}

#[verifier::opaque]
spec fn acc_2_44() -> Seq<u8> {
    seq![129u8, 129u8, 63u8, 77u8, 199u8, 61u8, 115u8, 66u8, 74u8, 119u8, 168u8, 111u8, 233u8, 38u8, 157u8, 195u8]
}

#[verifier::opaque]
spec fn acc_2_45() -> Seq<u8> {
    seq![206u8, 72u8, 56u8, 110u8, 144u8, 197u8, 147u8, 78u8, 28u8, 178u8, 34u8, 145u8, 250u8, 236u8, 60u8, 186u8]
}

#[verifier::opaque]
spec fn acc_2_46() -> Seq<u8> {
    seq![206u8, 72u8, 56u8, 110u8, 144u8, 197u8, 147u8, 78u8, 28u8, 178u8, 34u8, 145u8, 250u8, 236u8, 60u8, 186u8]
}

#[verifier::opaque]
spec fn acc_2_47() -> Seq<u8> {
    seq![117u8, 109u8, 39u8, 226u8, 204u8, 36u8, 16u8, 125u8, 68u8, 167u8, 9u8, 107u8, 181u8, 196u8, 187u8, 92u8]
}

#[verifier::opaque]
spec fn acc_2_48() -> Seq<u8> {
    seq![117u8, 109u8, 39u8, 226u8, 204u8, 36u8, 16u8, 125u8, 68u8, 167u8, 9u8, 107u8, 181u8, 196u8, 187u8, 92u8]
}

#[verifier::opaque]
spec fn acc_2_49() -> Seq<u8> {
    seq![16u8, 250u8, 91u8, 210u8, 190u8, 161u8, 31u8, 179u8, 36u8, 242u8, 165u8, 131u8, 138u8, 101u8, 167u8, 198u8]
}

#[verifier::opaque]
spec fn acc_2_50() -> Seq<u8> {
    seq![93u8, 212u8, 162u8, 178u8, 90u8, 171u8, 0u8, 47u8, 229u8, 88u8, 253u8, 82u8, 245u8, 39u8, 158u8, 242u8]
}

#[verifier::opaque]
spec fn acc_2_51() -> Seq<u8> {
    seq![199u8, 136u8, 80u8, 115u8, 146u8, 190u8, 62u8, 23u8, 102u8, 13u8, 76u8, 240u8, 10u8, 163u8, 236u8, 154u8]
}

#[verifier::opaque]
spec fn acc_2_52() -> Seq<u8> {
    seq![199u8, 136u8, 80u8, 115u8, 146u8, 190u8, 62u8, 23u8, 102u8, 13u8, 76u8, 240u8, 10u8, 163u8, 236u8, 154u8]
}

#[verifier::opaque]
spec fn acc_2_53() -> Seq<u8> {
    seq![40u8, 250u8, 153u8, 116u8, 177u8, 233u8, 198u8, 247u8, 106u8, 91u8, 137u8, 122u8, 244u8, 176u8, 38u8, 59u8]
}

#[verifier::opaque]
spec fn acc_2_54() -> Seq<u8> {
    seq![113u8, 31u8, 11u8, 123u8, 247u8, 71u8, 54u8, 54u8, 115u8, 247u8, 3u8, 111u8, 9u8, 151u8, 178u8, 120u8]
}

#[verifier::opaque]
spec fn acc_2_55() -> Seq<u8> {
    seq![195u8, 213u8, 46u8, 100u8, 123u8, 27u8, 215u8, 181u8, 64u8, 175u8, 22u8, 68u8, 243u8, 216u8, 154u8, 255u8]
}

#[verifier::opaque]
spec fn acc_2_56() -> Seq<u8> {
    seq![195u8, 213u8, 46u8, 100u8, 123u8, 27u8, 215u8, 181u8, 64u8, 175u8, 22u8, 68u8, 243u8, 216u8, 154u8, 255u8]
}

#[verifier::opaque]
spec fn acc_2_57() -> Seq<u8> {
    seq![195u8, 213u8, 46u8, 100u8, 123u8, 27u8, 215u8, 181u8, 64u8, 175u8, 22u8, 68u8, 243u8, 216u8, 154u8, 255u8]
}

#[verifier::opaque]
spec fn acc_2_58() -> Seq<u8> {
    seq![195u8, 213u8, 46u8, 100u8, 123u8, 27u8, 215u8, 181u8, 64u8, 175u8, 22u8, 68u8, 243u8, 216u8, 154u8, 255u8]
}

#[verifier::opaque]
spec fn acc_2_59() -> Seq<u8> {
    seq![219u8, 122u8, 114u8, 150u8, 186u8, 211u8, 194u8, 139u8, 120u8, 44u8, 67u8, 245u8, 81u8, 39u8, 30u8, 141u8]
}

#[verifier::opaque]
spec fn acc_2_60() -> Seq<u8> {
    seq![235u8, 36u8, 203u8, 114u8, 57u8, 66u8, 233u8, 247u8, 8u8, 42u8, 232u8, 151u8, 20u8, 216u8, 23u8, 104u8]
}

#[verifier::opaque]
spec fn acc_2_61() -> Seq<u8> {
    seq![235u8, 36u8, 203u8, 114u8, 57u8, 66u8, 233u8, 247u8, 8u8, 42u8, 232u8, 151u8, 20u8, 216u8, 23u8, 104u8]
}

#[verifier::opaque]
spec fn acc_2_62() -> Seq<u8> {
    seq![162u8, 93u8, 46u8, 224u8, 54u8, 4u8, 71u8, 7u8, 201u8, 51u8, 68u8, 29u8, 1u8, 37u8, 48u8, 252u8]
}

#[verifier::opaque]
spec fn acc_2_63() -> Seq<u8> {
    seq![183u8, 175u8, 228u8, 197u8, 41u8, 136u8, 27u8, 230u8, 74u8, 0u8, 28u8, 8u8, 42u8, 223u8, 127u8, 212u8]
}

#[verifier::opaque]
spec fn acc_2_64() -> Seq<u8> {
    seq![157u8, 75u8, 113u8, 142u8, 23u8, 144u8, 162u8, 36u8, 77u8, 103u8, 172u8, 34u8, 124u8, 43u8, 224u8, 132u8]
}

#[verifier::opaque]
spec fn acc_2_65() -> Seq<u8> {
    seq![157u8, 75u8, 113u8, 142u8, 23u8, 144u8, 162u8, 36u8, 77u8, 103u8, 172u8, 34u8, 124u8, 43u8, 224u8, 132u8]
}

#[verifier::opaque]
spec fn acc_2_66() -> Seq<u8> {
    seq![157u8, 75u8, 113u8, 142u8, 23u8, 144u8, 162u8, 36u8, 77u8, 103u8, 172u8, 34u8, 124u8, 43u8, 224u8, 132u8]
}

#[verifier::opaque]
spec fn acc_2_67() -> Seq<u8> {
    seq![195u8, 107u8, 222u8, 210u8, 229u8, 81u8, 106u8, 49u8, 115u8, 95u8, 47u8, 119u8, 205u8, 137u8, 31u8, 0u8]
}

#[verifier::opaque]
spec fn acc_2_68() -> Seq<u8> {
    seq![195u8, 107u8, 222u8, 210u8, 229u8, 81u8, 106u8, 49u8, 115u8, 95u8, 47u8, 119u8, 205u8, 137u8, 31u8, 0u8]
}

#[verifier::opaque]
spec fn acc_2_69() -> Seq<u8> {
    seq![195u8, 107u8, 222u8, 210u8, 229u8, 81u8, 106u8, 49u8, 115u8, 95u8, 47u8, 119u8, 205u8, 137u8, 31u8, 0u8]
}

#[verifier::opaque]
spec fn acc_2_70() -> Seq<u8> {
    seq![195u8, 107u8, 222u8, 210u8, 229u8, 81u8, 106u8, 49u8, 115u8, 95u8, 47u8, 119u8, 205u8, 137u8, 31u8, 0u8]
}

#[verifier::opaque]
spec fn acc_2_71() -> Seq<u8> {
    seq![195u8, 107u8, 222u8, 210u8, 229u8, 81u8, 106u8, 49u8, 115u8, 95u8, 47u8, 119u8, 205u8, 137u8, 31u8, 0u8]
}

#[verifier::opaque]
spec fn acc_2_72() -> Seq<u8> {
    seq![115u8, 104u8, 58u8, 71u8, 174u8, 111u8, 114u8, 136u8, 177u8, 88u8, 72u8, 199u8, 231u8, 223u8, 235u8, 159u8]
}

#[verifier::opaque]
spec fn acc_2_73() -> Seq<u8> {
    seq![148u8, 111u8, 242u8, 108u8, 57u8, 19u8, 66u8, 250u8, 52u8, 87u8, 134u8, 167u8, 178u8, 115u8, 3u8, 160u8]
}

#[verifier::opaque]
spec fn acc_2_74() -> Seq<u8> {
    seq![90u8, 96u8, 98u8, 59u8, 23u8, 234u8, 34u8, 30u8, 62u8, 72u8, 26u8, 102u8, 24u8, 43u8, 210u8, 223u8]
}

#[verifier::opaque]
spec fn acc_2_75() -> Seq<u8> {
    seq![90u8, 96u8, 98u8, 59u8, 23u8, 234u8, 34u8, 30u8, 62u8, 72u8, 26u8, 102u8, 24u8, 43u8, 210u8, 223u8]
}

#[verifier::opaque]
spec fn acc_2_76() -> Seq<u8> {
    seq![229u8, 95u8, 34u8, 101u8, 174u8, 14u8, 161u8, 143u8, 21u8, 52u8, 106u8, 96u8, 179u8, 73u8, 151u8, 32u8]
}

#[verifier::opaque]
spec fn acc_2_77() -> Seq<u8> {
    seq![28u8, 32u8, 162u8, 217u8, 220u8, 199u8, 166u8, 172u8, 66u8, 204u8, 138u8, 108u8, 229u8, 140u8, 29u8, 222u8]
}

#[verifier::opaque]
spec fn acc_2_78() -> Seq<u8> {
    seq![105u8, 223u8, 162u8, 160u8, 57u8, 85u8, 169u8, 234u8, 236u8, 60u8, 75u8, 117u8, 73u8, 6u8, 8u8, 35u8]
}

#[verifier::opaque]
spec fn acc_2_79() -> Seq<u8> {
    seq![105u8, 223u8, 162u8, 160u8, 57u8, 85u8, 169u8, 234u8, 236u8, 60u8, 75u8, 117u8, 73u8, 6u8, 8u8, 35u8]
}

#[verifier::opaque]
spec fn acc_2_80() -> Seq<u8> {
    seq![52u8, 35u8, 161u8, 68u8, 172u8, 30u8, 151u8, 242u8, 85u8, 254u8, 76u8, 18u8, 249u8, 44u8, 94u8, 215u8]
}

#[verifier::opaque]
spec fn acc_2_81() -> Seq<u8> {
    seq![9u8, 219u8, 166u8, 140u8, 135u8, 137u8, 235u8, 194u8, 39u8, 123u8, 67u8, 220u8, 153u8, 121u8, 242u8, 63u8]
}

#[verifier::opaque]
spec fn acc_2_82() -> Seq<u8> {
    seq![244u8, 43u8, 169u8, 28u8, 208u8, 167u8, 18u8, 162u8, 195u8, 113u8, 92u8, 64u8, 88u8, 211u8, 170u8, 238u8]
}

#[verifier::opaque]
spec fn acc_2_83() -> Seq<u8> {
    seq![137u8, 202u8, 182u8, 60u8, 127u8, 251u8, 224u8, 99u8, 11u8, 100u8, 98u8, 120u8, 219u8, 134u8, 27u8, 76u8]
}

#[verifier::opaque]
spec fn acc_2_84() -> Seq<u8> {
    seq![244u8, 8u8, 137u8, 124u8, 33u8, 66u8, 4u8, 224u8, 154u8, 79u8, 30u8, 8u8, 221u8, 45u8, 121u8, 9u8]
}

#[verifier::opaque]
spec fn acc_2_85() -> Seq<u8> {
    seq![14u8, 140u8, 246u8, 252u8, 157u8, 48u8, 205u8, 231u8, 185u8, 24u8, 230u8, 232u8, 209u8, 123u8, 188u8, 131u8]
}

#[verifier::opaque]
spec fn acc_2_86() -> Seq<u8> {
    seq![125u8, 133u8, 9u8, 252u8, 228u8, 213u8, 95u8, 232u8, 255u8, 182u8, 22u8, 41u8, 200u8, 215u8, 54u8, 150u8]
}

#[verifier::opaque]
spec fn acc_2_87() -> Seq<u8> {
    seq![125u8, 133u8, 9u8, 252u8, 228u8, 213u8, 95u8, 232u8, 255u8, 182u8, 22u8, 41u8, 200u8, 215u8, 54u8, 150u8]
}

#[verifier::opaque]
spec fn acc_2_88() -> Seq<u8> {
    seq![177u8, 160u8, 245u8, 255u8, 0u8, 64u8, 20u8, 214u8, 231u8, 15u8, 212u8, 46u8, 175u8, 103u8, 28u8, 192u8]
}

#[verifier::opaque]
spec fn acc_2_89() -> Seq<u8> {
    seq![177u8, 160u8, 245u8, 255u8, 0u8, 64u8, 20u8, 214u8, 231u8, 15u8, 212u8, 46u8, 175u8, 103u8, 28u8, 192u8]
}

#[verifier::opaque]
spec fn acc_2_90() -> Seq<u8> {
    seq![177u8, 160u8, 245u8, 255u8, 0u8, 64u8, 20u8, 214u8, 231u8, 15u8, 212u8, 46u8, 175u8, 103u8, 28u8, 192u8]
}

#[verifier::opaque]
spec fn acc_2_91() -> Seq<u8> {
    seq![223u8, 143u8, 20u8, 224u8, 32u8, 239u8, 72u8, 36u8, 38u8, 199u8, 193u8, 16u8, 151u8, 228u8, 73u8, 113u8]
}

#[verifier::opaque]
spec fn acc_2_92() -> Seq<u8> {
    seq![132u8, 209u8, 214u8, 223u8, 96u8, 177u8, 241u8, 192u8, 165u8, 86u8, 234u8, 108u8, 231u8, 226u8, 226u8, 19u8]
}

#[verifier::opaque]
spec fn acc_2_93() -> Seq<u8> {
    seq![50u8, 109u8, 82u8, 160u8, 224u8, 13u8, 131u8, 9u8, 162u8, 117u8, 189u8, 148u8, 7u8, 238u8, 180u8, 214u8]
}

#[verifier::opaque]
spec fn acc_2_94() -> Seq<u8> {
    seq![50u8, 109u8, 82u8, 160u8, 224u8, 13u8, 131u8, 9u8, 162u8, 117u8, 189u8, 148u8, 7u8, 238u8, 180u8, 214u8]
}

#[verifier::opaque]
spec fn acc_2_95() -> Seq<u8> {
    seq![50u8, 109u8, 82u8, 160u8, 224u8, 13u8, 131u8, 9u8, 162u8, 117u8, 189u8, 148u8, 7u8, 238u8, 180u8, 214u8]
}

#[verifier::opaque]
spec fn acc_2_96() -> Seq<u8> {
    seq![144u8, 139u8, 119u8, 92u8, 227u8, 233u8, 22u8, 66u8, 156u8, 109u8, 4u8, 86u8, 0u8, 137u8, 4u8, 252u8]
}

#[verifier::opaque]
spec fn acc_2_97() -> Seq<u8> {
    seq![212u8, 70u8, 60u8, 164u8, 228u8, 33u8, 61u8, 213u8, 224u8, 93u8, 118u8, 211u8, 15u8, 71u8, 100u8, 169u8]
}

#[verifier::opaque]
spec fn acc_2_98() -> Seq<u8> {
    seq![92u8, 220u8, 171u8, 84u8, 235u8, 177u8, 106u8, 251u8, 25u8, 61u8, 146u8, 217u8, 16u8, 219u8, 165u8, 3u8]
}

#[verifier::opaque]
spec fn acc_2_99() -> Seq<u8> {
    seq![92u8, 220u8, 171u8, 84u8, 235u8, 177u8, 106u8, 251u8, 25u8, 61u8, 146u8, 217u8, 16u8, 219u8, 165u8, 3u8]
}

#[verifier::opaque]
spec fn acc_2_100() -> Seq<u8> {
    seq![92u8, 220u8, 171u8, 84u8, 235u8, 177u8, 106u8, 251u8, 25u8, 61u8, 146u8, 217u8, 16u8, 219u8, 165u8, 3u8]
}

#[verifier::opaque]
spec fn acc_2_101() -> Seq<u8> {
    seq![92u8, 220u8, 171u8, 84u8, 235u8, 177u8, 106u8, 251u8, 25u8, 61u8, 146u8, 217u8, 16u8, 219u8, 165u8, 3u8]
}

#[verifier::opaque]
spec fn acc_2_102() -> Seq<u8> {
    seq![92u8, 220u8, 171u8, 84u8, 235u8, 177u8, 106u8, 251u8, 25u8, 61u8, 146u8, 217u8, 16u8, 219u8, 165u8, 3u8]
}

#[verifier::opaque]
spec fn acc_2_103() -> Seq<u8> {
    seq![183u8, 135u8, 88u8, 70u8, 21u8, 176u8, 152u8, 49u8, 60u8, 34u8, 30u8, 133u8, 241u8, 88u8, 150u8, 91u8]
}

#[verifier::opaque]
spec fn acc_2_104() -> Seq<u8> {
    seq![183u8, 135u8, 88u8, 70u8, 21u8, 176u8, 152u8, 49u8, 60u8, 34u8, 30u8, 133u8, 241u8, 88u8, 150u8, 91u8]
}

#[verifier::opaque]
spec fn acc_2_105() -> Seq<u8> {
    seq![156u8, 232u8, 149u8, 13u8, 237u8, 183u8, 80u8, 26u8, 171u8, 94u8, 46u8, 247u8, 116u8, 87u8, 88u8, 59u8]
}

#[verifier::opaque]
spec fn acc_2_106() -> Seq<u8> {
    seq![202u8, 54u8, 15u8, 154u8, 29u8, 184u8, 192u8, 77u8, 133u8, 167u8, 78u8, 19u8, 126u8, 72u8, 196u8, 250u8]
}

#[verifier::opaque]
spec fn acc_2_107() -> Seq<u8> {
    seq![225u8, 138u8, 58u8, 181u8, 252u8, 167u8, 224u8, 226u8, 217u8, 85u8, 143u8, 219u8, 107u8, 118u8, 252u8, 121u8]
}

#[verifier::opaque]
spec fn acc_2_108() -> Seq<u8> {
    seq![225u8, 138u8, 58u8, 181u8, 252u8, 167u8, 224u8, 226u8, 217u8, 85u8, 143u8, 219u8, 107u8, 118u8, 252u8, 121u8]
}

#[verifier::opaque]
spec fn acc_2_109() -> Seq<u8> {
    seq![67u8, 123u8, 236u8, 9u8, 120u8, 216u8, 96u8, 94u8, 171u8, 156u8, 136u8, 248u8, 60u8, 142u8, 28u8, 117u8]
}

#[verifier::opaque]
spec fn acc_2_110() -> Seq<u8> {
    seq![7u8, 152u8, 65u8, 112u8, 113u8, 39u8, 96u8, 39u8, 78u8, 14u8, 135u8, 190u8, 146u8, 126u8, 221u8, 108u8]
}

#[verifier::opaque]
spec fn acc_2_111() -> Seq<u8> {
    seq![7u8, 152u8, 65u8, 112u8, 113u8, 39u8, 96u8, 39u8, 78u8, 14u8, 135u8, 190u8, 146u8, 126u8, 221u8, 108u8]
}

#[verifier::opaque]
spec fn acc_2_112() -> Seq<u8> {
    seq![23u8, 21u8, 246u8, 150u8, 84u8, 219u8, 99u8, 195u8, 219u8, 69u8, 185u8, 166u8, 43u8, 188u8, 218u8, 11u8]
}

#[verifier::opaque]
spec fn acc_2_113() -> Seq<u8> {
    seq![23u8, 21u8, 246u8, 150u8, 84u8, 219u8, 99u8, 195u8, 219u8, 69u8, 185u8, 166u8, 43u8, 188u8, 218u8, 11u8]
}

#[verifier::opaque]
spec fn acc_2_114() -> Seq<u8> {
    seq![23u8, 21u8, 246u8, 150u8, 84u8, 219u8, 99u8, 195u8, 219u8, 69u8, 185u8, 166u8, 43u8, 188u8, 218u8, 11u8]
}

#[verifier::opaque]
spec fn acc_2_115() -> Seq<u8> {
    seq![30u8, 124u8, 74u8, 163u8, 123u8, 58u8, 124u8, 227u8, 116u8, 25u8, 75u8, 103u8, 227u8, 169u8, 228u8, 51u8]
}

#[verifier::opaque]
spec fn acc_2_116() -> Seq<u8> {
    seq![30u8, 124u8, 74u8, 163u8, 123u8, 58u8, 124u8, 227u8, 116u8, 25u8, 75u8, 103u8, 227u8, 169u8, 228u8, 51u8]
}

#[verifier::opaque]
spec fn acc_2_117() -> Seq<u8> {
    seq![58u8, 216u8, 187u8, 117u8, 199u8, 190u8, 3u8, 99u8, 200u8, 107u8, 130u8, 96u8, 192u8, 254u8, 28u8, 211u8]
}

#[verifier::opaque]
spec fn acc_2_118() -> Seq<u8> {
    seq![245u8, 144u8, 88u8, 216u8, 190u8, 183u8, 252u8, 99u8, 177u8, 142u8, 16u8, 111u8, 134u8, 80u8, 236u8, 18u8]
}

#[verifier::opaque]
spec fn acc_2_119() -> Seq<u8> {
    seq![236u8, 1u8, 158u8, 131u8, 77u8, 165u8, 2u8, 98u8, 67u8, 68u8, 53u8, 112u8, 10u8, 12u8, 13u8, 145u8]
}

#[verifier::opaque]
spec fn acc_2_120() -> Seq<u8> {
    seq![89u8, 35u8, 19u8, 52u8, 171u8, 128u8, 254u8, 97u8, 167u8, 209u8, 126u8, 78u8, 18u8, 181u8, 207u8, 150u8]
}

#[verifier::opaque]
spec fn acc_2_121() -> Seq<u8> {
    seq![89u8, 35u8, 19u8, 52u8, 171u8, 128u8, 254u8, 97u8, 167u8, 209u8, 126u8, 78u8, 18u8, 181u8, 207u8, 150u8]
}

#[verifier::opaque]
spec fn acc_2_122() -> Seq<u8> {
    seq![89u8, 35u8, 19u8, 52u8, 171u8, 128u8, 254u8, 97u8, 167u8, 209u8, 126u8, 78u8, 18u8, 181u8, 207u8, 150u8]
}

#[verifier::opaque]
spec fn acc_2_123() -> Seq<u8> {
    seq![241u8, 54u8, 122u8, 136u8, 158u8, 175u8, 31u8, 126u8, 135u8, 126u8, 34u8, 188u8, 211u8, 125u8, 218u8, 168u8]
}

#[verifier::opaque]
spec fn acc_2_124() -> Seq<u8> {
    seq![161u8, 29u8, 168u8, 240u8, 245u8, 241u8, 221u8, 65u8, 199u8, 32u8, 155u8, 88u8, 80u8, 236u8, 241u8, 212u8]
}

#[verifier::opaque]
spec fn acc_2_125() -> Seq<u8> {
    seq![161u8, 29u8, 168u8, 240u8, 245u8, 241u8, 221u8, 65u8, 199u8, 32u8, 155u8, 88u8, 80u8, 236u8, 241u8, 212u8]
}

#[verifier::opaque]
spec fn acc_2_126() -> Seq<u8> {
    seq![161u8, 29u8, 168u8, 240u8, 245u8, 241u8, 221u8, 65u8, 199u8, 32u8, 155u8, 88u8, 80u8, 236u8, 241u8, 212u8]
}

#[verifier::opaque]
spec fn acc_2_127() -> Seq<u8> {
    seq![168u8, 70u8, 57u8, 54u8, 174u8, 2u8, 207u8, 191u8, 198u8, 210u8, 81u8, 125u8, 79u8, 96u8, 173u8, 53u8]
}

#[verifier::opaque]
spec fn acc_2_128() -> Seq<u8> {
    seq![168u8, 70u8, 57u8, 54u8, 174u8, 2u8, 207u8, 191u8, 198u8, 210u8, 81u8, 125u8, 79u8, 96u8, 173u8, 53u8]
}

proof fn lemma_acc_2_0()
    ensures
        shift_add_mul(alpha_spec(), alpha_pow_2(), 0) == acc_2_0(),
{
    reveal(acc_2_0);
    assert(shift_add_mul(alpha_spec(), alpha_pow_2(), 0) =~= acc_2_0());
}

proof fn lemma_acc_2_1()
    ensures
        shift_add_mul(alpha_spec(), alpha_pow_2(), 1) == acc_2_1(),
{
    lemma_acc_2_0();
    lemma_alpha_x_0();
    lemma_alpha_byte_facts();
    reveal(bytes_p_2_1);
    reveal(alpha_pow_2);
    reveal(acc_2_0);
    reveal(acc_2_1);
    reveal(alpha_x_0);
    assert(bits_of_bytes(alpha_pow_2())[0] == bit_of(225u8, 0));
    assert(shift_add_mul(alpha_spec(), alpha_pow_2(), 1) =~= acc_2_1());
}

proof fn lemma_acc_2_2()
    ensures
        shift_add_mul(alpha_spec(), alpha_pow_2(), 2) == acc_2_2(),
{
    lemma_acc_2_1();
    lemma_alpha_x_1();
    lemma_alpha_byte_facts();
    reveal(bytes_p_2_2);
    reveal(alpha_pow_2);
    reveal(acc_2_1);
    reveal(acc_2_2);
    reveal(alpha_x_1);
    assert(bits_of_bytes(alpha_pow_2())[1] == bit_of(225u8, 1));
    assert(shift_add_mul(alpha_spec(), alpha_pow_2(), 2) =~= acc_2_2());
}

proof fn lemma_acc_2_3()
    ensures
        shift_add_mul(alpha_spec(), alpha_pow_2(), 3) == acc_2_3(),
{
    lemma_acc_2_2();
    lemma_alpha_x_2();
    lemma_alpha_byte_facts();
    reveal(bytes_p_2_3);
    reveal(alpha_pow_2);
    reveal(acc_2_2);
    reveal(acc_2_3);
    reveal(alpha_x_2);
    assert(bits_of_bytes(alpha_pow_2())[2] == bit_of(225u8, 2));
    assert(shift_add_mul(alpha_spec(), alpha_pow_2(), 3) =~= acc_2_3());
}

proof fn lemma_acc_2_4()
    ensures
        shift_add_mul(alpha_spec(), alpha_pow_2(), 4) == acc_2_4(),
{
    lemma_acc_2_3();
    lemma_alpha_x_3();
    lemma_alpha_byte_facts();
    reveal(bytes_p_2_4);
    reveal(alpha_pow_2);
    reveal(acc_2_3);
    reveal(acc_2_4);
    reveal(alpha_x_3);
    assert(bits_of_bytes(alpha_pow_2())[3] == bit_of(225u8, 3));
    assert(shift_add_mul(alpha_spec(), alpha_pow_2(), 4) =~= acc_2_4());
}

proof fn lemma_acc_2_5()
    ensures
        shift_add_mul(alpha_spec(), alpha_pow_2(), 5) == acc_2_5(),
{
    lemma_acc_2_4();
    lemma_alpha_x_4();
    lemma_alpha_byte_facts();
    reveal(bytes_p_2_5);
    reveal(alpha_pow_2);
    reveal(acc_2_4);
    reveal(acc_2_5);
    reveal(alpha_x_4);
    assert(bits_of_bytes(alpha_pow_2())[4] == bit_of(225u8, 4));
    assert(shift_add_mul(alpha_spec(), alpha_pow_2(), 5) =~= acc_2_5());
}

proof fn lemma_acc_2_6()
    ensures
        shift_add_mul(alpha_spec(), alpha_pow_2(), 6) == acc_2_6(),
{
    lemma_acc_2_5();
    lemma_alpha_x_5();
    lemma_alpha_byte_facts();
    reveal(bytes_p_2_6);
    reveal(alpha_pow_2);
    reveal(acc_2_5);
    reveal(acc_2_6);
    reveal(alpha_x_5);
    assert(bits_of_bytes(alpha_pow_2())[5] == bit_of(225u8, 5));
    assert(shift_add_mul(alpha_spec(), alpha_pow_2(), 6) =~= acc_2_6());
}

proof fn lemma_acc_2_7()
    ensures
        shift_add_mul(alpha_spec(), alpha_pow_2(), 7) == acc_2_7(),
{
    lemma_acc_2_6();
    lemma_alpha_x_6();
    lemma_alpha_byte_facts();
    reveal(bytes_p_2_7);
    reveal(alpha_pow_2);
    reveal(acc_2_6);
    reveal(acc_2_7);
    reveal(alpha_x_6);
    assert(bits_of_bytes(alpha_pow_2())[6] == bit_of(225u8, 6));
    assert(shift_add_mul(alpha_spec(), alpha_pow_2(), 7) =~= acc_2_7());
}

proof fn lemma_acc_2_8()
    ensures
        shift_add_mul(alpha_spec(), alpha_pow_2(), 8) == acc_2_8(),
{
    lemma_acc_2_7();
    lemma_alpha_x_7();
    lemma_alpha_byte_facts();
    reveal(bytes_p_2_8);
    reveal(alpha_pow_2);
    reveal(acc_2_7);
    reveal(acc_2_8);
    reveal(alpha_x_7);
    assert(bits_of_bytes(alpha_pow_2())[7] == bit_of(225u8, 7));
    assert(shift_add_mul(alpha_spec(), alpha_pow_2(), 8) =~= acc_2_8());
}

proof fn lemma_acc_2_9()
    ensures
        shift_add_mul(alpha_spec(), alpha_pow_2(), 9) == acc_2_9(),
{
    lemma_acc_2_8();
    lemma_alpha_x_8();
    lemma_alpha_byte_facts();
    reveal(bytes_p_2_9);
    reveal(alpha_pow_2);
    reveal(acc_2_8);
    reveal(acc_2_9);
    reveal(alpha_x_8);
    assert(bits_of_bytes(alpha_pow_2())[8] == bit_of(174u8, 0));
    assert(shift_add_mul(alpha_spec(), alpha_pow_2(), 9) =~= acc_2_9());
}

proof fn lemma_acc_2_10()
    ensures
        shift_add_mul(alpha_spec(), alpha_pow_2(), 10) == acc_2_10(),
{
    lemma_acc_2_9();
    lemma_alpha_x_9();
    lemma_alpha_byte_facts();
    reveal(bytes_p_2_10);
    reveal(alpha_pow_2);
    reveal(acc_2_9);
    reveal(acc_2_10);
    reveal(alpha_x_9);
    assert(bits_of_bytes(alpha_pow_2())[9] == bit_of(174u8, 1));
    assert(shift_add_mul(alpha_spec(), alpha_pow_2(), 10) =~= acc_2_10());
}

proof fn lemma_acc_2_11()
    ensures
        shift_add_mul(alpha_spec(), alpha_pow_2(), 11) == acc_2_11(),
{
    lemma_acc_2_10();
    lemma_alpha_x_10();
    lemma_alpha_byte_facts();
    reveal(bytes_p_2_11);
    reveal(alpha_pow_2);
    reveal(acc_2_10);
    reveal(acc_2_11);
    reveal(alpha_x_10);
    assert(bits_of_bytes(alpha_pow_2())[10] == bit_of(174u8, 2));
    assert(shift_add_mul(alpha_spec(), alpha_pow_2(), 11) =~= acc_2_11());
}

proof fn lemma_acc_2_12()
    ensures
        shift_add_mul(alpha_spec(), alpha_pow_2(), 12) == acc_2_12(),
{
    lemma_acc_2_11();
    lemma_alpha_x_11();
    lemma_alpha_byte_facts();
    reveal(bytes_p_2_12);
    reveal(alpha_pow_2);
    reveal(acc_2_11);
    reveal(acc_2_12);
    reveal(alpha_x_11);
    assert(bits_of_bytes(alpha_pow_2())[11] == bit_of(174u8, 3));
    assert(shift_add_mul(alpha_spec(), alpha_pow_2(), 12) =~= acc_2_12());
}

proof fn lemma_acc_2_13()
    ensures
        shift_add_mul(alpha_spec(), alpha_pow_2(), 13) == acc_2_13(),
{
    lemma_acc_2_12();
    lemma_alpha_x_12();
    lemma_alpha_byte_facts();
    reveal(bytes_p_2_13);
    reveal(alpha_pow_2);
    reveal(acc_2_12);
    reveal(acc_2_13);
    reveal(alpha_x_12);
    assert(bits_of_bytes(alpha_pow_2())[12] == bit_of(174u8, 4));
    assert(shift_add_mul(alpha_spec(), alpha_pow_2(), 13) =~= acc_2_13());
}

proof fn lemma_acc_2_14()
    ensures
        shift_add_mul(alpha_spec(), alpha_pow_2(), 14) == acc_2_14(),
{
    lemma_acc_2_13();
    lemma_alpha_x_13();
    lemma_alpha_byte_facts();
    reveal(bytes_p_2_14);
    reveal(alpha_pow_2);
    reveal(acc_2_13);
    reveal(acc_2_14);
    reveal(alpha_x_13);
    assert(bits_of_bytes(alpha_pow_2())[13] == bit_of(174u8, 5));
    assert(shift_add_mul(alpha_spec(), alpha_pow_2(), 14) =~= acc_2_14());
}

proof fn lemma_acc_2_15()
    ensures
        shift_add_mul(alpha_spec(), alpha_pow_2(), 15) == acc_2_15(),
{
    lemma_acc_2_14();
    lemma_alpha_x_14();
    lemma_alpha_byte_facts();
    reveal(bytes_p_2_15);
    reveal(alpha_pow_2);
    reveal(acc_2_14);
    reveal(acc_2_15);
    reveal(alpha_x_14);
    assert(bits_of_bytes(alpha_pow_2())[14] == bit_of(174u8, 6));
    assert(shift_add_mul(alpha_spec(), alpha_pow_2(), 15) =~= acc_2_15());
}

proof fn lemma_acc_2_16()
    ensures
        shift_add_mul(alpha_spec(), alpha_pow_2(), 16) == acc_2_16(),
{
    lemma_acc_2_15();
    lemma_alpha_x_15();
    lemma_alpha_byte_facts();
    reveal(bytes_p_2_16);
    reveal(alpha_pow_2);
    reveal(acc_2_15);
    reveal(acc_2_16);
    reveal(alpha_x_15);
    assert(bits_of_bytes(alpha_pow_2())[15] == bit_of(174u8, 7));
    assert(shift_add_mul(alpha_spec(), alpha_pow_2(), 16) =~= acc_2_16());
}

proof fn lemma_acc_2_17()
    ensures
        shift_add_mul(alpha_spec(), alpha_pow_2(), 17) == acc_2_17(),
{
    lemma_acc_2_16();
    lemma_alpha_x_16();
    lemma_alpha_byte_facts();
    reveal(bytes_p_2_17);
    reveal(alpha_pow_2);
    reveal(acc_2_16);
    reveal(acc_2_17);
    reveal(alpha_x_16);
    assert(bits_of_bytes(alpha_pow_2())[16] == bit_of(136u8, 0));
    assert(shift_add_mul(alpha_spec(), alpha_pow_2(), 17) =~= acc_2_17());
}

proof fn lemma_acc_2_18()
    ensures
        shift_add_mul(alpha_spec(), alpha_pow_2(), 18) == acc_2_18(),
{
    lemma_acc_2_17();
    lemma_alpha_x_17();
    lemma_alpha_byte_facts();
    reveal(bytes_p_2_18);
    reveal(alpha_pow_2);
    reveal(acc_2_17);
    reveal(acc_2_18);
    reveal(alpha_x_17);
    assert(bits_of_bytes(alpha_pow_2())[17] == bit_of(136u8, 1));
    assert(shift_add_mul(alpha_spec(), alpha_pow_2(), 18) =~= acc_2_18());
}

proof fn lemma_acc_2_19()
    ensures
        shift_add_mul(alpha_spec(), alpha_pow_2(), 19) == acc_2_19(),
{
    lemma_acc_2_18();
    lemma_alpha_x_18();
    lemma_alpha_byte_facts();
    reveal(bytes_p_2_19);
    reveal(alpha_pow_2);
    reveal(acc_2_18);
    reveal(acc_2_19);
    reveal(alpha_x_18);
    assert(bits_of_bytes(alpha_pow_2())[18] == bit_of(136u8, 2));
    assert(shift_add_mul(alpha_spec(), alpha_pow_2(), 19) =~= acc_2_19());
}

proof fn lemma_acc_2_20()
    ensures
        shift_add_mul(alpha_spec(), alpha_pow_2(), 20) == acc_2_20(),
{
    lemma_acc_2_19();
    lemma_alpha_x_19();
    lemma_alpha_byte_facts();
    reveal(bytes_p_2_20);
    reveal(alpha_pow_2);
    reveal(acc_2_19);
    reveal(acc_2_20);
    reveal(alpha_x_19);
    assert(bits_of_bytes(alpha_pow_2())[19] == bit_of(136u8, 3));
    assert(shift_add_mul(alpha_spec(), alpha_pow_2(), 20) =~= acc_2_20());
}

proof fn lemma_acc_2_21()
    ensures
        shift_add_mul(alpha_spec(), alpha_pow_2(), 21) == acc_2_21(),
{
    lemma_acc_2_20();
    lemma_alpha_x_20();
    lemma_alpha_byte_facts();
    reveal(bytes_p_2_21);
    reveal(alpha_pow_2);
    reveal(acc_2_20);
    reveal(acc_2_21);
    reveal(alpha_x_20);
    assert(bits_of_bytes(alpha_pow_2())[20] == bit_of(136u8, 4));
    assert(shift_add_mul(alpha_spec(), alpha_pow_2(), 21) =~= acc_2_21());
}

proof fn lemma_acc_2_22()
    ensures
        shift_add_mul(alpha_spec(), alpha_pow_2(), 22) == acc_2_22(),
{
    lemma_acc_2_21();
    lemma_alpha_x_21();
    lemma_alpha_byte_facts();
    reveal(bytes_p_2_22);
    reveal(alpha_pow_2);
    reveal(acc_2_21);
    reveal(acc_2_22);
    reveal(alpha_x_21);
    assert(bits_of_bytes(alpha_pow_2())[21] == bit_of(136u8, 5));
    assert(shift_add_mul(alpha_spec(), alpha_pow_2(), 22) =~= acc_2_22());
}

proof fn lemma_acc_2_23()
    ensures
        shift_add_mul(alpha_spec(), alpha_pow_2(), 23) == acc_2_23(),
{
    lemma_acc_2_22();
    lemma_alpha_x_22();
    lemma_alpha_byte_facts();
    reveal(bytes_p_2_23);
    reveal(alpha_pow_2);
    reveal(acc_2_22);
    reveal(acc_2_23);
    reveal(alpha_x_22);
    assert(bits_of_bytes(alpha_pow_2())[22] == bit_of(136u8, 6));
    assert(shift_add_mul(alpha_spec(), alpha_pow_2(), 23) =~= acc_2_23());
}

proof fn lemma_acc_2_24()
    ensures
        shift_add_mul(alpha_spec(), alpha_pow_2(), 24) == acc_2_24(),
{
    lemma_acc_2_23();
    lemma_alpha_x_23();
    lemma_alpha_byte_facts();
    reveal(bytes_p_2_24);
    reveal(alpha_pow_2);
    reveal(acc_2_23);
    reveal(acc_2_24);
    reveal(alpha_x_23);
    assert(bits_of_bytes(alpha_pow_2())[23] == bit_of(136u8, 7));
    assert(shift_add_mul(alpha_spec(), alpha_pow_2(), 24) =~= acc_2_24());
}

proof fn lemma_acc_2_25()
    ensures
        shift_add_mul(alpha_spec(), alpha_pow_2(), 25) == acc_2_25(),
{
    lemma_acc_2_24();
    lemma_alpha_x_24();
    lemma_alpha_byte_facts();
    reveal(bytes_p_2_25);
    reveal(alpha_pow_2);
    reveal(acc_2_24);
    reveal(acc_2_25);
    reveal(alpha_x_24);
    assert(bits_of_bytes(alpha_pow_2())[24] == bit_of(52u8, 0));
    assert(shift_add_mul(alpha_spec(), alpha_pow_2(), 25) =~= acc_2_25());
}

proof fn lemma_acc_2_26()
    ensures
        shift_add_mul(alpha_spec(), alpha_pow_2(), 26) == acc_2_26(),
{
    lemma_acc_2_25();
    lemma_alpha_x_25();
    lemma_alpha_byte_facts();
    reveal(bytes_p_2_26);
    reveal(alpha_pow_2);
    reveal(acc_2_25);
    reveal(acc_2_26);
    reveal(alpha_x_25);
    assert(bits_of_bytes(alpha_pow_2())[25] == bit_of(52u8, 1));
    assert(shift_add_mul(alpha_spec(), alpha_pow_2(), 26) =~= acc_2_26());
}

proof fn lemma_acc_2_27()
    ensures
        shift_add_mul(alpha_spec(), alpha_pow_2(), 27) == acc_2_27(),
{
    lemma_acc_2_26();
    lemma_alpha_x_26();
    lemma_alpha_byte_facts();
    reveal(bytes_p_2_27);
    reveal(alpha_pow_2);
    reveal(acc_2_26);
    reveal(acc_2_27);
    reveal(alpha_x_26);
    assert(bits_of_bytes(alpha_pow_2())[26] == bit_of(52u8, 2));
    assert(shift_add_mul(alpha_spec(), alpha_pow_2(), 27) =~= acc_2_27());
}

proof fn lemma_acc_2_28()
    ensures
        shift_add_mul(alpha_spec(), alpha_pow_2(), 28) == acc_2_28(),
{
    lemma_acc_2_27();
    lemma_alpha_x_27();
    lemma_alpha_byte_facts();
    reveal(bytes_p_2_28);
    reveal(alpha_pow_2);
    reveal(acc_2_27);
    reveal(acc_2_28);
    reveal(alpha_x_27);
    assert(bits_of_bytes(alpha_pow_2())[27] == bit_of(52u8, 3));
    assert(shift_add_mul(alpha_spec(), alpha_pow_2(), 28) =~= acc_2_28());
}

proof fn lemma_acc_2_29()
    ensures
        shift_add_mul(alpha_spec(), alpha_pow_2(), 29) == acc_2_29(),
{
    lemma_acc_2_28();
    lemma_alpha_x_28();
    lemma_alpha_byte_facts();
    reveal(bytes_p_2_29);
    reveal(alpha_pow_2);
    reveal(acc_2_28);
    reveal(acc_2_29);
    reveal(alpha_x_28);
    assert(bits_of_bytes(alpha_pow_2())[28] == bit_of(52u8, 4));
    assert(shift_add_mul(alpha_spec(), alpha_pow_2(), 29) =~= acc_2_29());
}

proof fn lemma_acc_2_30()
    ensures
        shift_add_mul(alpha_spec(), alpha_pow_2(), 30) == acc_2_30(),
{
    lemma_acc_2_29();
    lemma_alpha_x_29();
    lemma_alpha_byte_facts();
    reveal(bytes_p_2_30);
    reveal(alpha_pow_2);
    reveal(acc_2_29);
    reveal(acc_2_30);
    reveal(alpha_x_29);
    assert(bits_of_bytes(alpha_pow_2())[29] == bit_of(52u8, 5));
    assert(shift_add_mul(alpha_spec(), alpha_pow_2(), 30) =~= acc_2_30());
}

proof fn lemma_acc_2_31()
    ensures
        shift_add_mul(alpha_spec(), alpha_pow_2(), 31) == acc_2_31(),
{
    lemma_acc_2_30();
    lemma_alpha_x_30();
    lemma_alpha_byte_facts();
    reveal(bytes_p_2_31);
    reveal(alpha_pow_2);
    reveal(acc_2_30);
    reveal(acc_2_31);
    reveal(alpha_x_30);
    assert(bits_of_bytes(alpha_pow_2())[30] == bit_of(52u8, 6));
    assert(shift_add_mul(alpha_spec(), alpha_pow_2(), 31) =~= acc_2_31());
}

proof fn lemma_acc_2_32()
    ensures
        shift_add_mul(alpha_spec(), alpha_pow_2(), 32) == acc_2_32(),
{
    lemma_acc_2_31();
    lemma_alpha_x_31();
    lemma_alpha_byte_facts();
    reveal(bytes_p_2_32);
    reveal(alpha_pow_2);
    reveal(acc_2_31);
    reveal(acc_2_32);
    reveal(alpha_x_31);
    assert(bits_of_bytes(alpha_pow_2())[31] == bit_of(52u8, 7));
    assert(shift_add_mul(alpha_spec(), alpha_pow_2(), 32) =~= acc_2_32());
}

proof fn lemma_acc_2_33()
    ensures
        shift_add_mul(alpha_spec(), alpha_pow_2(), 33) == acc_2_33(),
{
    lemma_acc_2_32();
    lemma_alpha_x_32();
    lemma_alpha_byte_facts();
    reveal(bytes_p_2_33);
    reveal(alpha_pow_2);
    reveal(acc_2_32);
    reveal(acc_2_33);
    reveal(alpha_x_32);
    assert(bits_of_bytes(alpha_pow_2())[32] == bit_of(202u8, 0));
    assert(shift_add_mul(alpha_spec(), alpha_pow_2(), 33) =~= acc_2_33());
}

proof fn lemma_acc_2_34()
    ensures
        shift_add_mul(alpha_spec(), alpha_pow_2(), 34) == acc_2_34(),
{
    lemma_acc_2_33();
    lemma_alpha_x_33();
    lemma_alpha_byte_facts();
    reveal(bytes_p_2_34);
    reveal(alpha_pow_2);
    reveal(acc_2_33);
    reveal(acc_2_34);
    reveal(alpha_x_33);
    assert(bits_of_bytes(alpha_pow_2())[33] == bit_of(202u8, 1));
    assert(shift_add_mul(alpha_spec(), alpha_pow_2(), 34) =~= acc_2_34());
}

proof fn lemma_acc_2_35()
    ensures
        shift_add_mul(alpha_spec(), alpha_pow_2(), 35) == acc_2_35(),
{
    lemma_acc_2_34();
    lemma_alpha_x_34();
    lemma_alpha_byte_facts();
    reveal(bytes_p_2_35);
    reveal(alpha_pow_2);
    reveal(acc_2_34);
    reveal(acc_2_35);
    reveal(alpha_x_34);
    assert(bits_of_bytes(alpha_pow_2())[34] == bit_of(202u8, 2));
    assert(shift_add_mul(alpha_spec(), alpha_pow_2(), 35) =~= acc_2_35());
}

proof fn lemma_acc_2_36()
    ensures
        shift_add_mul(alpha_spec(), alpha_pow_2(), 36) == acc_2_36(),
{
    lemma_acc_2_35();
    lemma_alpha_x_35();
    lemma_alpha_byte_facts();
    reveal(bytes_p_2_36);
    reveal(alpha_pow_2);
    reveal(acc_2_35);
    reveal(acc_2_36);
    reveal(alpha_x_35);
    assert(bits_of_bytes(alpha_pow_2())[35] == bit_of(202u8, 3));
    assert(shift_add_mul(alpha_spec(), alpha_pow_2(), 36) =~= acc_2_36());
}

proof fn lemma_acc_2_37()
    ensures
        shift_add_mul(alpha_spec(), alpha_pow_2(), 37) == acc_2_37(),
{
    lemma_acc_2_36();
    lemma_alpha_x_36();
    lemma_alpha_byte_facts();
    reveal(bytes_p_2_37);
    reveal(alpha_pow_2);
    reveal(acc_2_36);
    reveal(acc_2_37);
    reveal(alpha_x_36);
    assert(bits_of_bytes(alpha_pow_2())[36] == bit_of(202u8, 4));
    assert(shift_add_mul(alpha_spec(), alpha_pow_2(), 37) =~= acc_2_37());
}

proof fn lemma_acc_2_38()
    ensures
        shift_add_mul(alpha_spec(), alpha_pow_2(), 38) == acc_2_38(),
{
    lemma_acc_2_37();
    lemma_alpha_x_37();
    lemma_alpha_byte_facts();
    reveal(bytes_p_2_38);
    reveal(alpha_pow_2);
    reveal(acc_2_37);
    reveal(acc_2_38);
    reveal(alpha_x_37);
    assert(bits_of_bytes(alpha_pow_2())[37] == bit_of(202u8, 5));
    assert(shift_add_mul(alpha_spec(), alpha_pow_2(), 38) =~= acc_2_38());
}

proof fn lemma_acc_2_39()
    ensures
        shift_add_mul(alpha_spec(), alpha_pow_2(), 39) == acc_2_39(),
{
    lemma_acc_2_38();
    lemma_alpha_x_38();
    lemma_alpha_byte_facts();
    reveal(bytes_p_2_39);
    reveal(alpha_pow_2);
    reveal(acc_2_38);
    reveal(acc_2_39);
    reveal(alpha_x_38);
    assert(bits_of_bytes(alpha_pow_2())[38] == bit_of(202u8, 6));
    assert(shift_add_mul(alpha_spec(), alpha_pow_2(), 39) =~= acc_2_39());
}

proof fn lemma_acc_2_40()
    ensures
        shift_add_mul(alpha_spec(), alpha_pow_2(), 40) == acc_2_40(),
{
    lemma_acc_2_39();
    lemma_alpha_x_39();
    lemma_alpha_byte_facts();
    reveal(bytes_p_2_40);
    reveal(alpha_pow_2);
    reveal(acc_2_39);
    reveal(acc_2_40);
    reveal(alpha_x_39);
    assert(bits_of_bytes(alpha_pow_2())[39] == bit_of(202u8, 7));
    assert(shift_add_mul(alpha_spec(), alpha_pow_2(), 40) =~= acc_2_40());
}

proof fn lemma_acc_2_41()
    ensures
        shift_add_mul(alpha_spec(), alpha_pow_2(), 41) == acc_2_41(),
{
    lemma_acc_2_40();
    lemma_alpha_x_40();
    lemma_alpha_byte_facts();
    reveal(bytes_p_2_41);
    reveal(alpha_pow_2);
    reveal(acc_2_40);
    reveal(acc_2_41);
    reveal(alpha_x_40);
    assert(bits_of_bytes(alpha_pow_2())[40] == bit_of(89u8, 0));
    assert(shift_add_mul(alpha_spec(), alpha_pow_2(), 41) =~= acc_2_41());
}

proof fn lemma_acc_2_42()
    ensures
        shift_add_mul(alpha_spec(), alpha_pow_2(), 42) == acc_2_42(),
{
    lemma_acc_2_41();
    lemma_alpha_x_41();
    lemma_alpha_byte_facts();
    reveal(bytes_p_2_42);
    reveal(alpha_pow_2);
    reveal(acc_2_41);
    reveal(acc_2_42);
    reveal(alpha_x_41);
    assert(bits_of_bytes(alpha_pow_2())[41] == bit_of(89u8, 1));
    assert(shift_add_mul(alpha_spec(), alpha_pow_2(), 42) =~= acc_2_42());
}

proof fn lemma_acc_2_43()
    ensures
        shift_add_mul(alpha_spec(), alpha_pow_2(), 43) == acc_2_43(),
{
    lemma_acc_2_42();
    lemma_alpha_x_42();
    lemma_alpha_byte_facts();
    reveal(bytes_p_2_43);
    reveal(alpha_pow_2);
    reveal(acc_2_42);
    reveal(acc_2_43);
    reveal(alpha_x_42);
    assert(bits_of_bytes(alpha_pow_2())[42] == bit_of(89u8, 2));
    assert(shift_add_mul(alpha_spec(), alpha_pow_2(), 43) =~= acc_2_43());
}

proof fn lemma_acc_2_44()
    ensures
        shift_add_mul(alpha_spec(), alpha_pow_2(), 44) == acc_2_44(),
{
    lemma_acc_2_43();
    lemma_alpha_x_43();
    lemma_alpha_byte_facts();
    reveal(bytes_p_2_44);
    reveal(alpha_pow_2);
    reveal(acc_2_43);
    reveal(acc_2_44);
    reveal(alpha_x_43);
    assert(bits_of_bytes(alpha_pow_2())[43] == bit_of(89u8, 3));
    assert(shift_add_mul(alpha_spec(), alpha_pow_2(), 44) =~= acc_2_44());
}

proof fn lemma_acc_2_45()
    ensures
        shift_add_mul(alpha_spec(), alpha_pow_2(), 45) == acc_2_45(),
{
    lemma_acc_2_44();
    lemma_alpha_x_44();
    lemma_alpha_byte_facts();
    reveal(bytes_p_2_45);
    reveal(alpha_pow_2);
    reveal(acc_2_44);
    reveal(acc_2_45);
    reveal(alpha_x_44);
    assert(bits_of_bytes(alpha_pow_2())[44] == bit_of(89u8, 4));
    assert(shift_add_mul(alpha_spec(), alpha_pow_2(), 45) =~= acc_2_45());
}

proof fn lemma_acc_2_46()
    ensures
        shift_add_mul(alpha_spec(), alpha_pow_2(), 46) == acc_2_46(),
{
    lemma_acc_2_45();
    lemma_alpha_x_45();
    lemma_alpha_byte_facts();
    reveal(bytes_p_2_46);
    reveal(alpha_pow_2);
    reveal(acc_2_45);
    reveal(acc_2_46);
    reveal(alpha_x_45);
    assert(bits_of_bytes(alpha_pow_2())[45] == bit_of(89u8, 5));
    assert(shift_add_mul(alpha_spec(), alpha_pow_2(), 46) =~= acc_2_46());
}

proof fn lemma_acc_2_47()
    ensures
        shift_add_mul(alpha_spec(), alpha_pow_2(), 47) == acc_2_47(),
{
    lemma_acc_2_46();
    lemma_alpha_x_46();
    lemma_alpha_byte_facts();
    reveal(bytes_p_2_47);
    reveal(alpha_pow_2);
    reveal(acc_2_46);
    reveal(acc_2_47);
    reveal(alpha_x_46);
    assert(bits_of_bytes(alpha_pow_2())[46] == bit_of(89u8, 6));
    assert(shift_add_mul(alpha_spec(), alpha_pow_2(), 47) =~= acc_2_47());
}

proof fn lemma_acc_2_48()
    ensures
        shift_add_mul(alpha_spec(), alpha_pow_2(), 48) == acc_2_48(),
{
    lemma_acc_2_47();
    lemma_alpha_x_47();
    lemma_alpha_byte_facts();
    reveal(bytes_p_2_48);
    reveal(alpha_pow_2);
    reveal(acc_2_47);
    reveal(acc_2_48);
    reveal(alpha_x_47);
    assert(bits_of_bytes(alpha_pow_2())[47] == bit_of(89u8, 7));
    assert(shift_add_mul(alpha_spec(), alpha_pow_2(), 48) =~= acc_2_48());
}

proof fn lemma_acc_2_49()
    ensures
        shift_add_mul(alpha_spec(), alpha_pow_2(), 49) == acc_2_49(),
{
    lemma_acc_2_48();
    lemma_alpha_x_48();
    lemma_alpha_byte_facts();
    reveal(bytes_p_2_49);
    reveal(alpha_pow_2);
    reveal(acc_2_48);
    reveal(acc_2_49);
    reveal(alpha_x_48);
    assert(bits_of_bytes(alpha_pow_2())[48] == bit_of(119u8, 0));
    assert(shift_add_mul(alpha_spec(), alpha_pow_2(), 49) =~= acc_2_49());
}

proof fn lemma_acc_2_50()
    ensures
        shift_add_mul(alpha_spec(), alpha_pow_2(), 50) == acc_2_50(),
{
    lemma_acc_2_49();
    lemma_alpha_x_49();
    lemma_alpha_byte_facts();
    reveal(bytes_p_2_50);
    reveal(alpha_pow_2);
    reveal(acc_2_49);
    reveal(acc_2_50);
    reveal(alpha_x_49);
    assert(bits_of_bytes(alpha_pow_2())[49] == bit_of(119u8, 1));
    assert(shift_add_mul(alpha_spec(), alpha_pow_2(), 50) =~= acc_2_50());
}

proof fn lemma_acc_2_51()
    ensures
        shift_add_mul(alpha_spec(), alpha_pow_2(), 51) == acc_2_51(),
{
    lemma_acc_2_50();
    lemma_alpha_x_50();
    lemma_alpha_byte_facts();
    reveal(bytes_p_2_51);
    reveal(alpha_pow_2);
    reveal(acc_2_50);
    reveal(acc_2_51);
    reveal(alpha_x_50);
    assert(bits_of_bytes(alpha_pow_2())[50] == bit_of(119u8, 2));
    assert(shift_add_mul(alpha_spec(), alpha_pow_2(), 51) =~= acc_2_51());
}

proof fn lemma_acc_2_52()
    ensures
        shift_add_mul(alpha_spec(), alpha_pow_2(), 52) == acc_2_52(),
{
    lemma_acc_2_51();
    lemma_alpha_x_51();
    lemma_alpha_byte_facts();
    reveal(bytes_p_2_52);
    reveal(alpha_pow_2);
    reveal(acc_2_51);
    reveal(acc_2_52);
    reveal(alpha_x_51);
    assert(bits_of_bytes(alpha_pow_2())[51] == bit_of(119u8, 3));
    assert(shift_add_mul(alpha_spec(), alpha_pow_2(), 52) =~= acc_2_52());
}

proof fn lemma_acc_2_53()
    ensures
        shift_add_mul(alpha_spec(), alpha_pow_2(), 53) == acc_2_53(),
{
    lemma_acc_2_52();
    lemma_alpha_x_52();
    lemma_alpha_byte_facts();
    reveal(bytes_p_2_53);
    reveal(alpha_pow_2);
    reveal(acc_2_52);
    reveal(acc_2_53);
    reveal(alpha_x_52);
    assert(bits_of_bytes(alpha_pow_2())[52] == bit_of(119u8, 4));
    assert(shift_add_mul(alpha_spec(), alpha_pow_2(), 53) =~= acc_2_53());
}

proof fn lemma_acc_2_54()
    ensures
        shift_add_mul(alpha_spec(), alpha_pow_2(), 54) == acc_2_54(),
{
    lemma_acc_2_53();
    lemma_alpha_x_53();
    lemma_alpha_byte_facts();
    reveal(bytes_p_2_54);
    reveal(alpha_pow_2);
    reveal(acc_2_53);
    reveal(acc_2_54);
    reveal(alpha_x_53);
    assert(bits_of_bytes(alpha_pow_2())[53] == bit_of(119u8, 5));
    assert(shift_add_mul(alpha_spec(), alpha_pow_2(), 54) =~= acc_2_54());
}

proof fn lemma_acc_2_55()
    ensures
        shift_add_mul(alpha_spec(), alpha_pow_2(), 55) == acc_2_55(),
{
    lemma_acc_2_54();
    lemma_alpha_x_54();
    lemma_alpha_byte_facts();
    reveal(bytes_p_2_55);
    reveal(alpha_pow_2);
    reveal(acc_2_54);
    reveal(acc_2_55);
    reveal(alpha_x_54);
    assert(bits_of_bytes(alpha_pow_2())[54] == bit_of(119u8, 6));
    assert(shift_add_mul(alpha_spec(), alpha_pow_2(), 55) =~= acc_2_55());
}

proof fn lemma_acc_2_56()
    ensures
        shift_add_mul(alpha_spec(), alpha_pow_2(), 56) == acc_2_56(),
{
    lemma_acc_2_55();
    lemma_alpha_x_55();
    lemma_alpha_byte_facts();
    reveal(bytes_p_2_56);
    reveal(alpha_pow_2);
    reveal(acc_2_55);
    reveal(acc_2_56);
    reveal(alpha_x_55);
    assert(bits_of_bytes(alpha_pow_2())[55] == bit_of(119u8, 7));
    assert(shift_add_mul(alpha_spec(), alpha_pow_2(), 56) =~= acc_2_56());
}

proof fn lemma_acc_2_57()
    ensures
        shift_add_mul(alpha_spec(), alpha_pow_2(), 57) == acc_2_57(),
{
    lemma_acc_2_56();
    lemma_alpha_x_56();
    lemma_alpha_byte_facts();
    reveal(bytes_p_2_57);
    reveal(alpha_pow_2);
    reveal(acc_2_56);
    reveal(acc_2_57);
    reveal(alpha_x_56);
    assert(bits_of_bytes(alpha_pow_2())[56] == bit_of(236u8, 0));
    assert(shift_add_mul(alpha_spec(), alpha_pow_2(), 57) =~= acc_2_57());
}

proof fn lemma_acc_2_58()
    ensures
        shift_add_mul(alpha_spec(), alpha_pow_2(), 58) == acc_2_58(),
{
    lemma_acc_2_57();
    lemma_alpha_x_57();
    lemma_alpha_byte_facts();
    reveal(bytes_p_2_58);
    reveal(alpha_pow_2);
    reveal(acc_2_57);
    reveal(acc_2_58);
    reveal(alpha_x_57);
    assert(bits_of_bytes(alpha_pow_2())[57] == bit_of(236u8, 1));
    assert(shift_add_mul(alpha_spec(), alpha_pow_2(), 58) =~= acc_2_58());
}

proof fn lemma_acc_2_59()
    ensures
        shift_add_mul(alpha_spec(), alpha_pow_2(), 59) == acc_2_59(),
{
    lemma_acc_2_58();
    lemma_alpha_x_58();
    lemma_alpha_byte_facts();
    reveal(bytes_p_2_59);
    reveal(alpha_pow_2);
    reveal(acc_2_58);
    reveal(acc_2_59);
    reveal(alpha_x_58);
    assert(bits_of_bytes(alpha_pow_2())[58] == bit_of(236u8, 2));
    assert(shift_add_mul(alpha_spec(), alpha_pow_2(), 59) =~= acc_2_59());
}

proof fn lemma_acc_2_60()
    ensures
        shift_add_mul(alpha_spec(), alpha_pow_2(), 60) == acc_2_60(),
{
    lemma_acc_2_59();
    lemma_alpha_x_59();
    lemma_alpha_byte_facts();
    reveal(bytes_p_2_60);
    reveal(alpha_pow_2);
    reveal(acc_2_59);
    reveal(acc_2_60);
    reveal(alpha_x_59);
    assert(bits_of_bytes(alpha_pow_2())[59] == bit_of(236u8, 3));
    assert(shift_add_mul(alpha_spec(), alpha_pow_2(), 60) =~= acc_2_60());
}

proof fn lemma_acc_2_61()
    ensures
        shift_add_mul(alpha_spec(), alpha_pow_2(), 61) == acc_2_61(),
{
    lemma_acc_2_60();
    lemma_alpha_x_60();
    lemma_alpha_byte_facts();
    reveal(bytes_p_2_61);
    reveal(alpha_pow_2);
    reveal(acc_2_60);
    reveal(acc_2_61);
    reveal(alpha_x_60);
    assert(bits_of_bytes(alpha_pow_2())[60] == bit_of(236u8, 4));
    assert(shift_add_mul(alpha_spec(), alpha_pow_2(), 61) =~= acc_2_61());
}

proof fn lemma_acc_2_62()
    ensures
        shift_add_mul(alpha_spec(), alpha_pow_2(), 62) == acc_2_62(),
{
    lemma_acc_2_61();
    lemma_alpha_x_61();
    lemma_alpha_byte_facts();
    reveal(bytes_p_2_62);
    reveal(alpha_pow_2);
    reveal(acc_2_61);
    reveal(acc_2_62);
    reveal(alpha_x_61);
    assert(bits_of_bytes(alpha_pow_2())[61] == bit_of(236u8, 5));
    assert(shift_add_mul(alpha_spec(), alpha_pow_2(), 62) =~= acc_2_62());
}

proof fn lemma_acc_2_63()
    ensures
        shift_add_mul(alpha_spec(), alpha_pow_2(), 63) == acc_2_63(),
{
    lemma_acc_2_62();
    lemma_alpha_x_62();
    lemma_alpha_byte_facts();
    reveal(bytes_p_2_63);
    reveal(alpha_pow_2);
    reveal(acc_2_62);
    reveal(acc_2_63);
    reveal(alpha_x_62);
    assert(bits_of_bytes(alpha_pow_2())[62] == bit_of(236u8, 6));
    assert(shift_add_mul(alpha_spec(), alpha_pow_2(), 63) =~= acc_2_63());
}

proof fn lemma_acc_2_64()
    ensures
        shift_add_mul(alpha_spec(), alpha_pow_2(), 64) == acc_2_64(),
{
    lemma_acc_2_63();
    lemma_alpha_x_63();
    lemma_alpha_byte_facts();
    reveal(bytes_p_2_64);
    reveal(alpha_pow_2);
    reveal(acc_2_63);
    reveal(acc_2_64);
    reveal(alpha_x_63);
    assert(bits_of_bytes(alpha_pow_2())[63] == bit_of(236u8, 7));
    assert(shift_add_mul(alpha_spec(), alpha_pow_2(), 64) =~= acc_2_64());
}

proof fn lemma_acc_2_65()
    ensures
        shift_add_mul(alpha_spec(), alpha_pow_2(), 65) == acc_2_65(),
{
    lemma_acc_2_64();
    lemma_alpha_x_64();
    lemma_alpha_byte_facts();
    reveal(bytes_p_2_65);
    reveal(alpha_pow_2);
    reveal(acc_2_64);
    reveal(acc_2_65);
    reveal(alpha_x_64);
    assert(bits_of_bytes(alpha_pow_2())[64] == bit_of(132u8, 0));
    assert(shift_add_mul(alpha_spec(), alpha_pow_2(), 65) =~= acc_2_65());
}

proof fn lemma_acc_2_66()
    ensures
        shift_add_mul(alpha_spec(), alpha_pow_2(), 66) == acc_2_66(),
{
    lemma_acc_2_65();
    lemma_alpha_x_65();
    lemma_alpha_byte_facts();
    reveal(bytes_p_2_66);
    reveal(alpha_pow_2);
    reveal(acc_2_65);
    reveal(acc_2_66);
    reveal(alpha_x_65);
    assert(bits_of_bytes(alpha_pow_2())[65] == bit_of(132u8, 1));
    assert(shift_add_mul(alpha_spec(), alpha_pow_2(), 66) =~= acc_2_66());
}

proof fn lemma_acc_2_67()
    ensures
        shift_add_mul(alpha_spec(), alpha_pow_2(), 67) == acc_2_67(),
{
    lemma_acc_2_66();
    lemma_alpha_x_66();
    lemma_alpha_byte_facts();
    reveal(bytes_p_2_67);
    reveal(alpha_pow_2);
    reveal(acc_2_66);
    reveal(acc_2_67);
    reveal(alpha_x_66);
    assert(bits_of_bytes(alpha_pow_2())[66] == bit_of(132u8, 2));
    assert(shift_add_mul(alpha_spec(), alpha_pow_2(), 67) =~= acc_2_67());
}

proof fn lemma_acc_2_68()
    ensures
        shift_add_mul(alpha_spec(), alpha_pow_2(), 68) == acc_2_68(),
{
    lemma_acc_2_67();
    lemma_alpha_x_67();
    lemma_alpha_byte_facts();
    reveal(bytes_p_2_68);
    reveal(alpha_pow_2);
    reveal(acc_2_67);
    reveal(acc_2_68);
    reveal(alpha_x_67);
    assert(bits_of_bytes(alpha_pow_2())[67] == bit_of(132u8, 3));
    assert(shift_add_mul(alpha_spec(), alpha_pow_2(), 68) =~= acc_2_68());
}

proof fn lemma_acc_2_69()
    ensures
        shift_add_mul(alpha_spec(), alpha_pow_2(), 69) == acc_2_69(),
{
    lemma_acc_2_68();
    lemma_alpha_x_68();
    lemma_alpha_byte_facts();
    reveal(bytes_p_2_69);
    reveal(alpha_pow_2);
    reveal(acc_2_68);
    reveal(acc_2_69);
    reveal(alpha_x_68);
    assert(bits_of_bytes(alpha_pow_2())[68] == bit_of(132u8, 4));
    assert(shift_add_mul(alpha_spec(), alpha_pow_2(), 69) =~= acc_2_69());
}

proof fn lemma_acc_2_70()
    ensures
        shift_add_mul(alpha_spec(), alpha_pow_2(), 70) == acc_2_70(),
{
    lemma_acc_2_69();
    lemma_alpha_x_69();
    lemma_alpha_byte_facts();
    reveal(bytes_p_2_70);
    reveal(alpha_pow_2);
    reveal(acc_2_69);
    reveal(acc_2_70);
    reveal(alpha_x_69);
    assert(bits_of_bytes(alpha_pow_2())[69] == bit_of(132u8, 5));
    assert(shift_add_mul(alpha_spec(), alpha_pow_2(), 70) =~= acc_2_70());
}

proof fn lemma_acc_2_71()
    ensures
        shift_add_mul(alpha_spec(), alpha_pow_2(), 71) == acc_2_71(),
{
    lemma_acc_2_70();
    lemma_alpha_x_70();
    lemma_alpha_byte_facts();
    reveal(bytes_p_2_71);
    reveal(alpha_pow_2);
    reveal(acc_2_70);
    reveal(acc_2_71);
    reveal(alpha_x_70);
    assert(bits_of_bytes(alpha_pow_2())[70] == bit_of(132u8, 6));
    assert(shift_add_mul(alpha_spec(), alpha_pow_2(), 71) =~= acc_2_71());
}

proof fn lemma_acc_2_72()
    ensures
        shift_add_mul(alpha_spec(), alpha_pow_2(), 72) == acc_2_72(),
{
    lemma_acc_2_71();
    lemma_alpha_x_71();
    lemma_alpha_byte_facts();
    reveal(bytes_p_2_72);
    reveal(alpha_pow_2);
    reveal(acc_2_71);
    reveal(acc_2_72);
    reveal(alpha_x_71);
    assert(bits_of_bytes(alpha_pow_2())[71] == bit_of(132u8, 7));
    assert(shift_add_mul(alpha_spec(), alpha_pow_2(), 72) =~= acc_2_72());
}

proof fn lemma_acc_2_73()
    ensures
        shift_add_mul(alpha_spec(), alpha_pow_2(), 73) == acc_2_73(),
{
    lemma_acc_2_72();
    lemma_alpha_x_72();
    lemma_alpha_byte_facts();
    reveal(bytes_p_2_73);
    reveal(alpha_pow_2);
    reveal(acc_2_72);
    reveal(acc_2_73);
    reveal(alpha_x_72);
    assert(bits_of_bytes(alpha_pow_2())[72] == bit_of(187u8, 0));
    assert(shift_add_mul(alpha_spec(), alpha_pow_2(), 73) =~= acc_2_73());
}

proof fn lemma_acc_2_74()
    ensures
        shift_add_mul(alpha_spec(), alpha_pow_2(), 74) == acc_2_74(),
{
    lemma_acc_2_73();
    lemma_alpha_x_73();
    lemma_alpha_byte_facts();
    reveal(bytes_p_2_74);
    reveal(alpha_pow_2);
    reveal(acc_2_73);
    reveal(acc_2_74);
    reveal(alpha_x_73);
    assert(bits_of_bytes(alpha_pow_2())[73] == bit_of(187u8, 1));
    assert(shift_add_mul(alpha_spec(), alpha_pow_2(), 74) =~= acc_2_74());
}

proof fn lemma_acc_2_75()
    ensures
        shift_add_mul(alpha_spec(), alpha_pow_2(), 75) == acc_2_75(),
{
    lemma_acc_2_74();
    lemma_alpha_x_74();
    lemma_alpha_byte_facts();
    reveal(bytes_p_2_75);
    reveal(alpha_pow_2);
    reveal(acc_2_74);
    reveal(acc_2_75);
    reveal(alpha_x_74);
    assert(bits_of_bytes(alpha_pow_2())[74] == bit_of(187u8, 2));
    assert(shift_add_mul(alpha_spec(), alpha_pow_2(), 75) =~= acc_2_75());
}

proof fn lemma_acc_2_76()
    ensures
        shift_add_mul(alpha_spec(), alpha_pow_2(), 76) == acc_2_76(),
{
    lemma_acc_2_75();
    lemma_alpha_x_75();
    lemma_alpha_byte_facts();
    reveal(bytes_p_2_76);
    reveal(alpha_pow_2);
    reveal(acc_2_75);
    reveal(acc_2_76);
    reveal(alpha_x_75);
    assert(bits_of_bytes(alpha_pow_2())[75] == bit_of(187u8, 3));
    assert(shift_add_mul(alpha_spec(), alpha_pow_2(), 76) =~= acc_2_76());
}

proof fn lemma_acc_2_77()
    ensures
        shift_add_mul(alpha_spec(), alpha_pow_2(), 77) == acc_2_77(),
{
    lemma_acc_2_76();
    lemma_alpha_x_76();
    lemma_alpha_byte_facts();
    reveal(bytes_p_2_77);
    reveal(alpha_pow_2);
    reveal(acc_2_76);
    reveal(acc_2_77);
    reveal(alpha_x_76);
    assert(bits_of_bytes(alpha_pow_2())[76] == bit_of(187u8, 4));
    assert(shift_add_mul(alpha_spec(), alpha_pow_2(), 77) =~= acc_2_77());
}

proof fn lemma_acc_2_78()
    ensures
        shift_add_mul(alpha_spec(), alpha_pow_2(), 78) == acc_2_78(),
{
    lemma_acc_2_77();
    lemma_alpha_x_77();
    lemma_alpha_byte_facts();
    reveal(bytes_p_2_78);
    reveal(alpha_pow_2);
    reveal(acc_2_77);
    reveal(acc_2_78);
    reveal(alpha_x_77);
    assert(bits_of_bytes(alpha_pow_2())[77] == bit_of(187u8, 5));
    assert(shift_add_mul(alpha_spec(), alpha_pow_2(), 78) =~= acc_2_78());
}

proof fn lemma_acc_2_79()
    ensures
        shift_add_mul(alpha_spec(), alpha_pow_2(), 79) == acc_2_79(),
{
    lemma_acc_2_78();
    lemma_alpha_x_78();
    lemma_alpha_byte_facts();
    reveal(bytes_p_2_79);
    reveal(alpha_pow_2);
    reveal(acc_2_78);
    reveal(acc_2_79);
    reveal(alpha_x_78);
    assert(bits_of_bytes(alpha_pow_2())[78] == bit_of(187u8, 6));
    assert(shift_add_mul(alpha_spec(), alpha_pow_2(), 79) =~= acc_2_79());
}

proof fn lemma_acc_2_80()
    ensures
        shift_add_mul(alpha_spec(), alpha_pow_2(), 80) == acc_2_80(),
{
    lemma_acc_2_79();
    lemma_alpha_x_79();
    lemma_alpha_byte_facts();
    reveal(bytes_p_2_80);
    reveal(alpha_pow_2);
    reveal(acc_2_79);
    reveal(acc_2_80);
    reveal(alpha_x_79);
    assert(bits_of_bytes(alpha_pow_2())[79] == bit_of(187u8, 7));
    assert(shift_add_mul(alpha_spec(), alpha_pow_2(), 80) =~= acc_2_80());
}

proof fn lemma_acc_2_81()
    ensures
        shift_add_mul(alpha_spec(), alpha_pow_2(), 81) == acc_2_81(),
{
    lemma_acc_2_80();
    lemma_alpha_x_80();
    lemma_alpha_byte_facts();
    reveal(bytes_p_2_81);
    reveal(alpha_pow_2);
    reveal(acc_2_80);
    reveal(acc_2_81);
    reveal(alpha_x_80);
    assert(bits_of_bytes(alpha_pow_2())[80] == bit_of(191u8, 0));
    assert(shift_add_mul(alpha_spec(), alpha_pow_2(), 81) =~= acc_2_81());
}

proof fn lemma_acc_2_82()
    ensures
        shift_add_mul(alpha_spec(), alpha_pow_2(), 82) == acc_2_82(),
{
    lemma_acc_2_81();
    lemma_alpha_x_81();
    lemma_alpha_byte_facts();
    reveal(bytes_p_2_82);
    reveal(alpha_pow_2);
    reveal(acc_2_81);
    reveal(acc_2_82);
    reveal(alpha_x_81);
    assert(bits_of_bytes(alpha_pow_2())[81] == bit_of(191u8, 1));
    assert(shift_add_mul(alpha_spec(), alpha_pow_2(), 82) =~= acc_2_82());
}

proof fn lemma_acc_2_83()
    ensures
        shift_add_mul(alpha_spec(), alpha_pow_2(), 83) == acc_2_83(),
{
    lemma_acc_2_82();
    lemma_alpha_x_82();
    lemma_alpha_byte_facts();
    reveal(bytes_p_2_83);
    reveal(alpha_pow_2);
    reveal(acc_2_82);
    reveal(acc_2_83);
    reveal(alpha_x_82);
    assert(bits_of_bytes(alpha_pow_2())[82] == bit_of(191u8, 2));
    assert(shift_add_mul(alpha_spec(), alpha_pow_2(), 83) =~= acc_2_83());
}

proof fn lemma_acc_2_84()
    ensures
        shift_add_mul(alpha_spec(), alpha_pow_2(), 84) == acc_2_84(),
{
    lemma_acc_2_83();
    lemma_alpha_x_83();
    lemma_alpha_byte_facts();
    reveal(bytes_p_2_84);
    reveal(alpha_pow_2);
    reveal(acc_2_83);
    reveal(acc_2_84);
    reveal(alpha_x_83);
    assert(bits_of_bytes(alpha_pow_2())[83] == bit_of(191u8, 3));
    assert(shift_add_mul(alpha_spec(), alpha_pow_2(), 84) =~= acc_2_84());
}

proof fn lemma_acc_2_85()
    ensures
        shift_add_mul(alpha_spec(), alpha_pow_2(), 85) == acc_2_85(),
{
    lemma_acc_2_84();
    lemma_alpha_x_84();
    lemma_alpha_byte_facts();
    reveal(bytes_p_2_85);
    reveal(alpha_pow_2);
    reveal(acc_2_84);
    reveal(acc_2_85);
    reveal(alpha_x_84);
    assert(bits_of_bytes(alpha_pow_2())[84] == bit_of(191u8, 4));
    assert(shift_add_mul(alpha_spec(), alpha_pow_2(), 85) =~= acc_2_85());
}

proof fn lemma_acc_2_86()
    ensures
        shift_add_mul(alpha_spec(), alpha_pow_2(), 86) == acc_2_86(),
{
    lemma_acc_2_85();
    lemma_alpha_x_85();
    lemma_alpha_byte_facts();
    reveal(bytes_p_2_86);
    reveal(alpha_pow_2);
    reveal(acc_2_85);
    reveal(acc_2_86);
    reveal(alpha_x_85);
    assert(bits_of_bytes(alpha_pow_2())[85] == bit_of(191u8, 5));
    assert(shift_add_mul(alpha_spec(), alpha_pow_2(), 86) =~= acc_2_86());
}

proof fn lemma_acc_2_87()
    ensures
        shift_add_mul(alpha_spec(), alpha_pow_2(), 87) == acc_2_87(),
{
    lemma_acc_2_86();
    lemma_alpha_x_86();
    lemma_alpha_byte_facts();
    reveal(bytes_p_2_87);
    reveal(alpha_pow_2);
    reveal(acc_2_86);
    reveal(acc_2_87);
    reveal(alpha_x_86);
    assert(bits_of_bytes(alpha_pow_2())[86] == bit_of(191u8, 6));
    assert(shift_add_mul(alpha_spec(), alpha_pow_2(), 87) =~= acc_2_87());
}

proof fn lemma_acc_2_88()
    ensures
        shift_add_mul(alpha_spec(), alpha_pow_2(), 88) == acc_2_88(),
{
    lemma_acc_2_87();
    lemma_alpha_x_87();
    lemma_alpha_byte_facts();
    reveal(bytes_p_2_88);
    reveal(alpha_pow_2);
    reveal(acc_2_87);
    reveal(acc_2_88);
    reveal(alpha_x_87);
    assert(bits_of_bytes(alpha_pow_2())[87] == bit_of(191u8, 7));
    assert(shift_add_mul(alpha_spec(), alpha_pow_2(), 88) =~= acc_2_88());
}

proof fn lemma_acc_2_89()
    ensures
        shift_add_mul(alpha_spec(), alpha_pow_2(), 89) == acc_2_89(),
{
    lemma_acc_2_88();
    lemma_alpha_x_88();
    lemma_alpha_byte_facts();
    reveal(bytes_p_2_89);
    reveal(alpha_pow_2);
    reveal(acc_2_88);
    reveal(acc_2_89);
    reveal(alpha_x_88);
    assert(bits_of_bytes(alpha_pow_2())[88] == bit_of(156u8, 0));
    assert(shift_add_mul(alpha_spec(), alpha_pow_2(), 89) =~= acc_2_89());
}

proof fn lemma_acc_2_90()
    ensures
        shift_add_mul(alpha_spec(), alpha_pow_2(), 90) == acc_2_90(),
{
    lemma_acc_2_89();
    lemma_alpha_x_89();
    lemma_alpha_byte_facts();
    reveal(bytes_p_2_90);
    reveal(alpha_pow_2);
    reveal(acc_2_89);
    reveal(acc_2_90);
    reveal(alpha_x_89);
    assert(bits_of_bytes(alpha_pow_2())[89] == bit_of(156u8, 1));
    assert(shift_add_mul(alpha_spec(), alpha_pow_2(), 90) =~= acc_2_90());
}

proof fn lemma_acc_2_91()
    ensures
        shift_add_mul(alpha_spec(), alpha_pow_2(), 91) == acc_2_91(),
{
    lemma_acc_2_90();
    lemma_alpha_x_90();
    lemma_alpha_byte_facts();
    reveal(bytes_p_2_91);
    reveal(alpha_pow_2);
    reveal(acc_2_90);
    reveal(acc_2_91);
    reveal(alpha_x_90);
    assert(bits_of_bytes(alpha_pow_2())[90] == bit_of(156u8, 2));
    assert(shift_add_mul(alpha_spec(), alpha_pow_2(), 91) =~= acc_2_91());
}

proof fn lemma_acc_2_92()
    ensures
        shift_add_mul(alpha_spec(), alpha_pow_2(), 92) == acc_2_92(),
{
    lemma_acc_2_91();
    lemma_alpha_x_91();
    lemma_alpha_byte_facts();
    reveal(bytes_p_2_92);
    reveal(alpha_pow_2);
    reveal(acc_2_91);
    reveal(acc_2_92);
    reveal(alpha_x_91);
    assert(bits_of_bytes(alpha_pow_2())[91] == bit_of(156u8, 3));
    assert(shift_add_mul(alpha_spec(), alpha_pow_2(), 92) =~= acc_2_92());
}

proof fn lemma_acc_2_93()
    ensures
        shift_add_mul(alpha_spec(), alpha_pow_2(), 93) == acc_2_93(),
{
    lemma_acc_2_92();
    lemma_alpha_x_92();
    lemma_alpha_byte_facts();
    reveal(bytes_p_2_93);
    reveal(alpha_pow_2);
    reveal(acc_2_92);
    reveal(acc_2_93);
    reveal(alpha_x_92);
    assert(bits_of_bytes(alpha_pow_2())[92] == bit_of(156u8, 4));
    assert(shift_add_mul(alpha_spec(), alpha_pow_2(), 93) =~= acc_2_93());
}

proof fn lemma_acc_2_94()
    ensures
        shift_add_mul(alpha_spec(), alpha_pow_2(), 94) == acc_2_94(),
{
    lemma_acc_2_93();
    lemma_alpha_x_93();
    lemma_alpha_byte_facts();
    reveal(bytes_p_2_94);
    reveal(alpha_pow_2);
    reveal(acc_2_93);
    reveal(acc_2_94);
    reveal(alpha_x_93);
    assert(bits_of_bytes(alpha_pow_2())[93] == bit_of(156u8, 5));
    assert(shift_add_mul(alpha_spec(), alpha_pow_2(), 94) =~= acc_2_94());
}

proof fn lemma_acc_2_95()
    ensures
        shift_add_mul(alpha_spec(), alpha_pow_2(), 95) == acc_2_95(),
{
    lemma_acc_2_94();
    lemma_alpha_x_94();
    lemma_alpha_byte_facts();
    reveal(bytes_p_2_95);
    reveal(alpha_pow_2);
    reveal(acc_2_94);
    reveal(acc_2_95);
    reveal(alpha_x_94);
    assert(bits_of_bytes(alpha_pow_2())[94] == bit_of(156u8, 6));
    assert(shift_add_mul(alpha_spec(), alpha_pow_2(), 95) =~= acc_2_95());
}

proof fn lemma_acc_2_96()
    ensures
        shift_add_mul(alpha_spec(), alpha_pow_2(), 96) == acc_2_96(),
{
    lemma_acc_2_95();
    lemma_alpha_x_95();
    lemma_alpha_byte_facts();
    reveal(bytes_p_2_96);
    reveal(alpha_pow_2);
    reveal(acc_2_95);
    reveal(acc_2_96);
    reveal(alpha_x_95);
    assert(bits_of_bytes(alpha_pow_2())[95] == bit_of(156u8, 7));
    assert(shift_add_mul(alpha_spec(), alpha_pow_2(), 96) =~= acc_2_96());
}

proof fn lemma_acc_2_97()
    ensures
        shift_add_mul(alpha_spec(), alpha_pow_2(), 97) == acc_2_97(),
{
    lemma_acc_2_96();
    lemma_alpha_x_96();
    lemma_alpha_byte_facts();
    reveal(bytes_p_2_97);
    reveal(alpha_pow_2);
    reveal(acc_2_96);
    reveal(acc_2_97);
    reveal(alpha_x_96);
    assert(bits_of_bytes(alpha_pow_2())[96] == bit_of(67u8, 0));
    assert(shift_add_mul(alpha_spec(), alpha_pow_2(), 97) =~= acc_2_97());
}

proof fn lemma_acc_2_98()
    ensures
        shift_add_mul(alpha_spec(), alpha_pow_2(), 98) == acc_2_98(),
{
    lemma_acc_2_97();
    lemma_alpha_x_97();
    lemma_alpha_byte_facts();
    reveal(bytes_p_2_98);
    reveal(alpha_pow_2);
    reveal(acc_2_97);
    reveal(acc_2_98);
    reveal(alpha_x_97);
    assert(bits_of_bytes(alpha_pow_2())[97] == bit_of(67u8, 1));
    assert(shift_add_mul(alpha_spec(), alpha_pow_2(), 98) =~= acc_2_98());
}

proof fn lemma_acc_2_99()
    ensures
        shift_add_mul(alpha_spec(), alpha_pow_2(), 99) == acc_2_99(),
{
    lemma_acc_2_98();
    lemma_alpha_x_98();
    lemma_alpha_byte_facts();
    reveal(bytes_p_2_99);
    reveal(alpha_pow_2);
    reveal(acc_2_98);
    reveal(acc_2_99);
    reveal(alpha_x_98);
    assert(bits_of_bytes(alpha_pow_2())[98] == bit_of(67u8, 2));
    assert(shift_add_mul(alpha_spec(), alpha_pow_2(), 99) =~= acc_2_99());
}

proof fn lemma_acc_2_100()
    ensures
        shift_add_mul(alpha_spec(), alpha_pow_2(), 100) == acc_2_100(),
{
    lemma_acc_2_99();
    lemma_alpha_x_99();
    lemma_alpha_byte_facts();
    reveal(bytes_p_2_100);
    reveal(alpha_pow_2);
    reveal(acc_2_99);
    reveal(acc_2_100);
    reveal(alpha_x_99);
    assert(bits_of_bytes(alpha_pow_2())[99] == bit_of(67u8, 3));
    assert(shift_add_mul(alpha_spec(), alpha_pow_2(), 100) =~= acc_2_100());
}

proof fn lemma_acc_2_101()
    ensures
        shift_add_mul(alpha_spec(), alpha_pow_2(), 101) == acc_2_101(),
{
    lemma_acc_2_100();
    lemma_alpha_x_100();
    lemma_alpha_byte_facts();
    reveal(bytes_p_2_101);
    reveal(alpha_pow_2);
    reveal(acc_2_100);
    reveal(acc_2_101);
    reveal(alpha_x_100);
    assert(bits_of_bytes(alpha_pow_2())[100] == bit_of(67u8, 4));
    assert(shift_add_mul(alpha_spec(), alpha_pow_2(), 101) =~= acc_2_101());
}

proof fn lemma_acc_2_102()
    ensures
        shift_add_mul(alpha_spec(), alpha_pow_2(), 102) == acc_2_102(),
{
    lemma_acc_2_101();
    lemma_alpha_x_101();
    lemma_alpha_byte_facts();
    reveal(bytes_p_2_102);
    reveal(alpha_pow_2);
    reveal(acc_2_101);
    reveal(acc_2_102);
    reveal(alpha_x_101);
    assert(bits_of_bytes(alpha_pow_2())[101] == bit_of(67u8, 5));
    assert(shift_add_mul(alpha_spec(), alpha_pow_2(), 102) =~= acc_2_102());
}

proof fn lemma_acc_2_103()
    ensures
        shift_add_mul(alpha_spec(), alpha_pow_2(), 103) == acc_2_103(),
{
    lemma_acc_2_102();
    lemma_alpha_x_102();
    lemma_alpha_byte_facts();
    reveal(bytes_p_2_103);
    reveal(alpha_pow_2);
    reveal(acc_2_102);
    reveal(acc_2_103);
    reveal(alpha_x_102);
    assert(bits_of_bytes(alpha_pow_2())[102] == bit_of(67u8, 6));
    assert(shift_add_mul(alpha_spec(), alpha_pow_2(), 103) =~= acc_2_103());
}

proof fn lemma_acc_2_104()
    ensures
        shift_add_mul(alpha_spec(), alpha_pow_2(), 104) == acc_2_104(),
{
    lemma_acc_2_103();
    lemma_alpha_x_103();
    lemma_alpha_byte_facts();
    reveal(bytes_p_2_104);
    reveal(alpha_pow_2);
    reveal(acc_2_103);
    reveal(acc_2_104);
    reveal(alpha_x_103);
    assert(bits_of_bytes(alpha_pow_2())[103] == bit_of(67u8, 7));
    assert(shift_add_mul(alpha_spec(), alpha_pow_2(), 104) =~= acc_2_104());
}

proof fn lemma_acc_2_105()
    ensures
        shift_add_mul(alpha_spec(), alpha_pow_2(), 105) == acc_2_105(),
{
    lemma_acc_2_104();
    lemma_alpha_x_104();
    lemma_alpha_byte_facts();
    reveal(bytes_p_2_105);
    reveal(alpha_pow_2);
    reveal(acc_2_104);
    reveal(acc_2_105);
    reveal(alpha_x_104);
    assert(bits_of_bytes(alpha_pow_2())[104] == bit_of(183u8, 0));
    assert(shift_add_mul(alpha_spec(), alpha_pow_2(), 105) =~= acc_2_105());
}

proof fn lemma_acc_2_106()
    ensures
        shift_add_mul(alpha_spec(), alpha_pow_2(), 106) == acc_2_106(),
{
    lemma_acc_2_105();
    lemma_alpha_x_105();
    lemma_alpha_byte_facts();
    reveal(bytes_p_2_106);
    reveal(alpha_pow_2);
    reveal(acc_2_105);
    reveal(acc_2_106);
    reveal(alpha_x_105);
    assert(bits_of_bytes(alpha_pow_2())[105] == bit_of(183u8, 1));
    assert(shift_add_mul(alpha_spec(), alpha_pow_2(), 106) =~= acc_2_106());
}

proof fn lemma_acc_2_107()
    ensures
        shift_add_mul(alpha_spec(), alpha_pow_2(), 107) == acc_2_107(),
{
    lemma_acc_2_106();
    lemma_alpha_x_106();
    lemma_alpha_byte_facts();
    reveal(bytes_p_2_107);
    reveal(alpha_pow_2);
    reveal(acc_2_106);
    reveal(acc_2_107);
    reveal(alpha_x_106);
    assert(bits_of_bytes(alpha_pow_2())[106] == bit_of(183u8, 2));
    assert(shift_add_mul(alpha_spec(), alpha_pow_2(), 107) =~= acc_2_107());
}

proof fn lemma_acc_2_108()
    ensures
        shift_add_mul(alpha_spec(), alpha_pow_2(), 108) == acc_2_108(),
{
    lemma_acc_2_107();
    lemma_alpha_x_107();
    lemma_alpha_byte_facts();
    reveal(bytes_p_2_108);
    reveal(alpha_pow_2);
    reveal(acc_2_107);
    reveal(acc_2_108);
    reveal(alpha_x_107);
    assert(bits_of_bytes(alpha_pow_2())[107] == bit_of(183u8, 3));
    assert(shift_add_mul(alpha_spec(), alpha_pow_2(), 108) =~= acc_2_108());
}

proof fn lemma_acc_2_109()
    ensures
        shift_add_mul(alpha_spec(), alpha_pow_2(), 109) == acc_2_109(),
{
    lemma_acc_2_108();
    lemma_alpha_x_108();
    lemma_alpha_byte_facts();
    reveal(bytes_p_2_109);
    reveal(alpha_pow_2);
    reveal(acc_2_108);
    reveal(acc_2_109);
    reveal(alpha_x_108);
    assert(bits_of_bytes(alpha_pow_2())[108] == bit_of(183u8, 4));
    assert(shift_add_mul(alpha_spec(), alpha_pow_2(), 109) =~= acc_2_109());
}

proof fn lemma_acc_2_110()
    ensures
        shift_add_mul(alpha_spec(), alpha_pow_2(), 110) == acc_2_110(),
{
    lemma_acc_2_109();
    lemma_alpha_x_109();
    lemma_alpha_byte_facts();
    reveal(bytes_p_2_110);
    reveal(alpha_pow_2);
    reveal(acc_2_109);
    reveal(acc_2_110);
    reveal(alpha_x_109);
    assert(bits_of_bytes(alpha_pow_2())[109] == bit_of(183u8, 5));
    assert(shift_add_mul(alpha_spec(), alpha_pow_2(), 110) =~= acc_2_110());
}

proof fn lemma_acc_2_111()
    ensures
        shift_add_mul(alpha_spec(), alpha_pow_2(), 111) == acc_2_111(),
{
    lemma_acc_2_110();
    lemma_alpha_x_110();
    lemma_alpha_byte_facts();
    reveal(bytes_p_2_111);
    reveal(alpha_pow_2);
    reveal(acc_2_110);
    reveal(acc_2_111);
    reveal(alpha_x_110);
    assert(bits_of_bytes(alpha_pow_2())[110] == bit_of(183u8, 6));
    assert(shift_add_mul(alpha_spec(), alpha_pow_2(), 111) =~= acc_2_111());
}

proof fn lemma_acc_2_112()
    ensures
        shift_add_mul(alpha_spec(), alpha_pow_2(), 112) == acc_2_112(),
{
    lemma_acc_2_111();
    lemma_alpha_x_111();
    lemma_alpha_byte_facts();
    reveal(bytes_p_2_112);
    reveal(alpha_pow_2);
    reveal(acc_2_111);
    reveal(acc_2_112);
    reveal(alpha_x_111);
    assert(bits_of_bytes(alpha_pow_2())[111] == bit_of(183u8, 7));
    assert(shift_add_mul(alpha_spec(), alpha_pow_2(), 112) =~= acc_2_112());
}

proof fn lemma_acc_2_113()
    ensures
        shift_add_mul(alpha_spec(), alpha_pow_2(), 113) == acc_2_113(),
{
    lemma_acc_2_112();
    lemma_alpha_x_112();
    lemma_alpha_byte_facts();
    reveal(bytes_p_2_113);
    reveal(alpha_pow_2);
    reveal(acc_2_112);
    reveal(acc_2_113);
    reveal(alpha_x_112);
    assert(bits_of_bytes(alpha_pow_2())[112] == bit_of(244u8, 0));
    assert(shift_add_mul(alpha_spec(), alpha_pow_2(), 113) =~= acc_2_113());
}

proof fn lemma_acc_2_114()
    ensures
        shift_add_mul(alpha_spec(), alpha_pow_2(), 114) == acc_2_114(),
{
    lemma_acc_2_113();
    lemma_alpha_x_113();
    lemma_alpha_byte_facts();
    reveal(bytes_p_2_114);
    reveal(alpha_pow_2);
    reveal(acc_2_113);
    reveal(acc_2_114);
    reveal(alpha_x_113);
    assert(bits_of_bytes(alpha_pow_2())[113] == bit_of(244u8, 1));
    assert(shift_add_mul(alpha_spec(), alpha_pow_2(), 114) =~= acc_2_114());
}

proof fn lemma_acc_2_115()
    ensures
        shift_add_mul(alpha_spec(), alpha_pow_2(), 115) == acc_2_115(),
{
    lemma_acc_2_114();
    lemma_alpha_x_114();
    lemma_alpha_byte_facts();
    reveal(bytes_p_2_115);
    reveal(alpha_pow_2);
    reveal(acc_2_114);
    reveal(acc_2_115);
    reveal(alpha_x_114);
    assert(bits_of_bytes(alpha_pow_2())[114] == bit_of(244u8, 2));
    assert(shift_add_mul(alpha_spec(), alpha_pow_2(), 115) =~= acc_2_115());
}

proof fn lemma_acc_2_116()
    ensures
        shift_add_mul(alpha_spec(), alpha_pow_2(), 116) == acc_2_116(),
{
    lemma_acc_2_115();
    lemma_alpha_x_115();
    lemma_alpha_byte_facts();
    reveal(bytes_p_2_116);
    reveal(alpha_pow_2);
    reveal(acc_2_115);
    reveal(acc_2_116);
    reveal(alpha_x_115);
    assert(bits_of_bytes(alpha_pow_2())[115] == bit_of(244u8, 3));
    assert(shift_add_mul(alpha_spec(), alpha_pow_2(), 116) =~= acc_2_116());
}

proof fn lemma_acc_2_117()
    ensures
        shift_add_mul(alpha_spec(), alpha_pow_2(), 117) == acc_2_117(),
{
    lemma_acc_2_116();
    lemma_alpha_x_116();
    lemma_alpha_byte_facts();
    reveal(bytes_p_2_117);
    reveal(alpha_pow_2);
    reveal(acc_2_116);
    reveal(acc_2_117);
    reveal(alpha_x_116);
    assert(bits_of_bytes(alpha_pow_2())[116] == bit_of(244u8, 4));
    assert(shift_add_mul(alpha_spec(), alpha_pow_2(), 117) =~= acc_2_117());
}

proof fn lemma_acc_2_118()
    ensures
        shift_add_mul(alpha_spec(), alpha_pow_2(), 118) == acc_2_118(),
{
    lemma_acc_2_117();
    lemma_alpha_x_117();
    lemma_alpha_byte_facts();
    reveal(bytes_p_2_118);
    reveal(alpha_pow_2);
    reveal(acc_2_117);
    reveal(acc_2_118);
    reveal(alpha_x_117);
    assert(bits_of_bytes(alpha_pow_2())[117] == bit_of(244u8, 5));
    assert(shift_add_mul(alpha_spec(), alpha_pow_2(), 118) =~= acc_2_118());
}

proof fn lemma_acc_2_119()
    ensures
        shift_add_mul(alpha_spec(), alpha_pow_2(), 119) == acc_2_119(),
{
    lemma_acc_2_118();
    lemma_alpha_x_118();
    lemma_alpha_byte_facts();
    reveal(bytes_p_2_119);
    reveal(alpha_pow_2);
    reveal(acc_2_118);
    reveal(acc_2_119);
    reveal(alpha_x_118);
    assert(bits_of_bytes(alpha_pow_2())[118] == bit_of(244u8, 6));
    assert(shift_add_mul(alpha_spec(), alpha_pow_2(), 119) =~= acc_2_119());
}

proof fn lemma_acc_2_120()
    ensures
        shift_add_mul(alpha_spec(), alpha_pow_2(), 120) == acc_2_120(),
{
    lemma_acc_2_119();
    lemma_alpha_x_119();
    lemma_alpha_byte_facts();
    reveal(bytes_p_2_120);
    reveal(alpha_pow_2);
    reveal(acc_2_119);
    reveal(acc_2_120);
    reveal(alpha_x_119);
    assert(bits_of_bytes(alpha_pow_2())[119] == bit_of(244u8, 7));
    assert(shift_add_mul(alpha_spec(), alpha_pow_2(), 120) =~= acc_2_120());
}

proof fn lemma_acc_2_121()
    ensures
        shift_add_mul(alpha_spec(), alpha_pow_2(), 121) == acc_2_121(),
{
    lemma_acc_2_120();
    lemma_alpha_x_120();
    lemma_alpha_byte_facts();
    reveal(bytes_p_2_121);
    reveal(alpha_pow_2);
    reveal(acc_2_120);
    reveal(acc_2_121);
    reveal(alpha_x_120);
    assert(bits_of_bytes(alpha_pow_2())[120] == bit_of(76u8, 0));
    assert(shift_add_mul(alpha_spec(), alpha_pow_2(), 121) =~= acc_2_121());
}

proof fn lemma_acc_2_122()
    ensures
        shift_add_mul(alpha_spec(), alpha_pow_2(), 122) == acc_2_122(),
{
    lemma_acc_2_121();
    lemma_alpha_x_121();
    lemma_alpha_byte_facts();
    reveal(bytes_p_2_122);
    reveal(alpha_pow_2);
    reveal(acc_2_121);
    reveal(acc_2_122);
    reveal(alpha_x_121);
    assert(bits_of_bytes(alpha_pow_2())[121] == bit_of(76u8, 1));
    assert(shift_add_mul(alpha_spec(), alpha_pow_2(), 122) =~= acc_2_122());
}

proof fn lemma_acc_2_123()
    ensures
        shift_add_mul(alpha_spec(), alpha_pow_2(), 123) == acc_2_123(),
{
    lemma_acc_2_122();
    lemma_alpha_x_122();
    lemma_alpha_byte_facts();
    reveal(bytes_p_2_123);
    reveal(alpha_pow_2);
    reveal(acc_2_122);
    reveal(acc_2_123);
    reveal(alpha_x_122);
    assert(bits_of_bytes(alpha_pow_2())[122] == bit_of(76u8, 2));
    assert(shift_add_mul(alpha_spec(), alpha_pow_2(), 123) =~= acc_2_123());
}

proof fn lemma_acc_2_124()
    ensures
        shift_add_mul(alpha_spec(), alpha_pow_2(), 124) == acc_2_124(),
{
    lemma_acc_2_123();
    lemma_alpha_x_123();
    lemma_alpha_byte_facts();
    reveal(bytes_p_2_124);
    reveal(alpha_pow_2);
    reveal(acc_2_123);
    reveal(acc_2_124);
    reveal(alpha_x_123);
    assert(bits_of_bytes(alpha_pow_2())[123] == bit_of(76u8, 3));
    assert(shift_add_mul(alpha_spec(), alpha_pow_2(), 124) =~= acc_2_124());
}

proof fn lemma_acc_2_125()
    ensures
        shift_add_mul(alpha_spec(), alpha_pow_2(), 125) == acc_2_125(),
{
    lemma_acc_2_124();
    lemma_alpha_x_124();
    lemma_alpha_byte_facts();
    reveal(bytes_p_2_125);
    reveal(alpha_pow_2);
    reveal(acc_2_124);
    reveal(acc_2_125);
    reveal(alpha_x_124);
    assert(bits_of_bytes(alpha_pow_2())[124] == bit_of(76u8, 4));
    assert(shift_add_mul(alpha_spec(), alpha_pow_2(), 125) =~= acc_2_125());
}

proof fn lemma_acc_2_126()
    ensures
        shift_add_mul(alpha_spec(), alpha_pow_2(), 126) == acc_2_126(),
{
    lemma_acc_2_125();
    lemma_alpha_x_125();
    lemma_alpha_byte_facts();
    reveal(bytes_p_2_126);
    reveal(alpha_pow_2);
    reveal(acc_2_125);
    reveal(acc_2_126);
    reveal(alpha_x_125);
    assert(bits_of_bytes(alpha_pow_2())[125] == bit_of(76u8, 5));
    assert(shift_add_mul(alpha_spec(), alpha_pow_2(), 126) =~= acc_2_126());
}

proof fn lemma_acc_2_127()
    ensures
        shift_add_mul(alpha_spec(), alpha_pow_2(), 127) == acc_2_127(),
{
    lemma_acc_2_126();
    lemma_alpha_x_126();
    lemma_alpha_byte_facts();
    reveal(bytes_p_2_127);
    reveal(alpha_pow_2);
    reveal(acc_2_126);
    reveal(acc_2_127);
    reveal(alpha_x_126);
    assert(bits_of_bytes(alpha_pow_2())[126] == bit_of(76u8, 6));
    assert(shift_add_mul(alpha_spec(), alpha_pow_2(), 127) =~= acc_2_127());
}

proof fn lemma_acc_2_128()
    ensures
        shift_add_mul(alpha_spec(), alpha_pow_2(), 128) == acc_2_128(),
{
    lemma_acc_2_127();
    lemma_alpha_x_127();
    lemma_alpha_byte_facts();
    reveal(bytes_p_2_128);
    reveal(alpha_pow_2);
    reveal(acc_2_127);
    reveal(acc_2_128);
    reveal(alpha_x_127);
    assert(bits_of_bytes(alpha_pow_2())[127] == bit_of(76u8, 7));
    assert(shift_add_mul(alpha_spec(), alpha_pow_2(), 128) =~= acc_2_128());
}

#[verifier::opaque]
spec fn acc_3_0() -> Seq<u8> {
    seq![0u8, 0u8, 0u8, 0u8, 0u8, 0u8, 0u8, 0u8, 0u8, 0u8, 0u8, 0u8, 0u8, 0u8, 0u8, 0u8]
}

#[verifier::opaque]
spec fn acc_3_1() -> Seq<u8> {
    seq![0u8, 0u8, 0u8, 0u8, 0u8, 0u8, 0u8, 0u8, 0u8, 0u8, 0u8, 0u8, 0u8, 0u8, 0u8, 0u8]
}

#[verifier::opaque]
spec fn acc_3_2() -> Seq<u8> {
    seq![0u8, 0u8, 0u8, 0u8, 0u8, 0u8, 0u8, 0u8, 0u8, 0u8, 0u8, 0u8, 0u8, 0u8, 0u8, 0u8]
}

#[verifier::opaque]
spec fn acc_3_3() -> Seq<u8> {
    seq![0u8, 0u8, 0u8, 0u8, 0u8, 0u8, 0u8, 0u8, 0u8, 0u8, 0u8, 0u8, 0u8, 0u8, 0u8, 0u8]
}

#[verifier::opaque]
spec fn acc_3_4() -> Seq<u8> {
    seq![104u8, 112u8, 6u8, 171u8, 98u8, 69u8, 255u8, 9u8, 229u8, 208u8, 188u8, 76u8, 173u8, 42u8, 236u8, 41u8]
}

#[verifier::opaque]
spec fn acc_3_5() -> Seq<u8> {
    seq![104u8, 112u8, 6u8, 171u8, 98u8, 69u8, 255u8, 9u8, 229u8, 208u8, 188u8, 76u8, 173u8, 42u8, 236u8, 41u8]
}

#[verifier::opaque]
spec fn acc_3_6() -> Seq<u8> {
    seq![200u8, 177u8, 31u8, 7u8, 232u8, 80u8, 2u8, 46u8, 113u8, 147u8, 79u8, 126u8, 24u8, 128u8, 92u8, 142u8]
}

#[verifier::opaque]
spec fn acc_3_7() -> Seq<u8> {
    seq![200u8, 177u8, 31u8, 7u8, 232u8, 80u8, 2u8, 46u8, 113u8, 147u8, 79u8, 126u8, 24u8, 128u8, 92u8, 142u8]
}

#[verifier::opaque]
spec fn acc_3_8() -> Seq<u8> {
    seq![70u8, 182u8, 120u8, 183u8, 194u8, 6u8, 246u8, 177u8, 33u8, 157u8, 130u8, 181u8, 204u8, 42u8, 158u8, 16u8]
}

#[verifier::opaque]
spec fn acc_3_9() -> Seq<u8> {
    seq![70u8, 182u8, 120u8, 183u8, 194u8, 6u8, 246u8, 177u8, 33u8, 157u8, 130u8, 181u8, 204u8, 42u8, 158u8, 16u8]
}

#[verifier::opaque]
spec fn acc_3_10() -> Seq<u8> {
    seq![112u8, 169u8, 228u8, 118u8, 104u8, 94u8, 39u8, 206u8, 99u8, 164u8, 182u8, 154u8, 159u8, 129u8, 148u8, 107u8]
}

#[verifier::opaque]
spec fn acc_3_11() -> Seq<u8> {
    seq![28u8, 151u8, 220u8, 245u8, 61u8, 239u8, 133u8, 49u8, 231u8, 214u8, 222u8, 196u8, 57u8, 215u8, 129u8, 157u8]
}

#[verifier::opaque]
spec fn acc_3_12() -> Seq<u8> {
    seq![28u8, 151u8, 220u8, 245u8, 61u8, 239u8, 133u8, 49u8, 231u8, 214u8, 222u8, 196u8, 57u8, 215u8, 129u8, 157u8]
}

#[verifier::opaque]
spec fn acc_3_13() -> Seq<u8> {
    seq![28u8, 151u8, 220u8, 245u8, 61u8, 239u8, 133u8, 49u8, 231u8, 214u8, 222u8, 196u8, 57u8, 215u8, 129u8, 157u8]
}

#[verifier::opaque]
spec fn acc_3_14() -> Seq<u8> {
    seq![28u8, 151u8, 220u8, 245u8, 61u8, 239u8, 133u8, 49u8, 231u8, 214u8, 222u8, 196u8, 57u8, 215u8, 129u8, 157u8]
}

#[verifier::opaque]
spec fn acc_3_15() -> Seq<u8> {
    seq![113u8, 118u8, 95u8, 198u8, 101u8, 250u8, 174u8, 203u8, 168u8, 254u8, 89u8, 34u8, 92u8, 189u8, 212u8, 252u8]
}

#[verifier::opaque]
spec fn acc_3_16() -> Seq<u8> {
    seq![113u8, 118u8, 95u8, 198u8, 101u8, 250u8, 174u8, 203u8, 168u8, 254u8, 89u8, 34u8, 92u8, 189u8, 212u8, 252u8]
}

#[verifier::opaque]
spec fn acc_3_17() -> Seq<u8> {
    seq![66u8, 243u8, 80u8, 8u8, 5u8, 175u8, 2u8, 35u8, 151u8, 95u8, 69u8, 184u8, 203u8, 20u8, 129u8, 121u8]
}

#[verifier::opaque]
spec fn acc_3_18() -> Seq<u8> {
    seq![66u8, 243u8, 80u8, 8u8, 5u8, 175u8, 2u8, 35u8, 151u8, 95u8, 69u8, 184u8, 203u8, 20u8, 129u8, 121u8]
}

#[verifier::opaque]
spec fn acc_3_19() -> Seq<u8> {
    seq![66u8, 243u8, 80u8, 8u8, 5u8, 175u8, 2u8, 35u8, 151u8, 95u8, 69u8, 184u8, 203u8, 20u8, 129u8, 121u8]
}

#[verifier::opaque]
spec fn acc_3_20() -> Seq<u8> {
    seq![198u8, 216u8, 44u8, 120u8, 3u8, 4u8, 96u8, 102u8, 104u8, 86u8, 160u8, 104u8, 119u8, 88u8, 44u8, 83u8]
}

#[verifier::opaque]
spec fn acc_3_21() -> Seq<u8> {
    seq![206u8, 143u8, 212u8, 152u8, 15u8, 82u8, 165u8, 236u8, 150u8, 69u8, 106u8, 201u8, 14u8, 193u8, 118u8, 6u8]
}

#[verifier::opaque]
spec fn acc_3_22() -> Seq<u8> {
    seq![222u8, 33u8, 36u8, 89u8, 22u8, 254u8, 47u8, 249u8, 107u8, 98u8, 254u8, 138u8, 253u8, 243u8, 195u8, 172u8]
}

#[verifier::opaque]
spec fn acc_3_23() -> Seq<u8> {
    seq![222u8, 33u8, 36u8, 89u8, 22u8, 254u8, 47u8, 249u8, 107u8, 98u8, 254u8, 138u8, 253u8, 243u8, 195u8, 172u8]
}

#[verifier::opaque]
spec fn acc_3_24() -> Seq<u8> {
    seq![222u8, 33u8, 36u8, 89u8, 22u8, 254u8, 47u8, 249u8, 107u8, 98u8, 254u8, 138u8, 253u8, 243u8, 195u8, 172u8]
}

#[verifier::opaque]
spec fn acc_3_25() -> Seq<u8> {
    seq![222u8, 33u8, 36u8, 89u8, 22u8, 254u8, 47u8, 249u8, 107u8, 98u8, 254u8, 138u8, 253u8, 243u8, 195u8, 172u8]
}

#[verifier::opaque]
spec fn acc_3_26() -> Seq<u8> {
    seq![232u8, 197u8, 46u8, 70u8, 138u8, 63u8, 133u8, 161u8, 186u8, 29u8, 188u8, 179u8, 201u8, 220u8, 144u8, 7u8]
}

#[verifier::opaque]
spec fn acc_3_27() -> Seq<u8> {
    seq![3u8, 13u8, 59u8, 120u8, 178u8, 188u8, 208u8, 16u8, 24u8, 226u8, 56u8, 193u8, 161u8, 130u8, 54u8, 81u8]
}

#[verifier::opaque]
spec fn acc_3_28() -> Seq<u8> {
    seq![3u8, 13u8, 59u8, 120u8, 178u8, 188u8, 208u8, 16u8, 24u8, 226u8, 56u8, 193u8, 161u8, 130u8, 54u8, 81u8]
}

#[verifier::opaque]
spec fn acc_3_29() -> Seq<u8> {
    seq![40u8, 46u8, 108u8, 128u8, 82u8, 176u8, 134u8, 213u8, 146u8, 28u8, 43u8, 11u8, 0u8, 251u8, 175u8, 11u8]
}

#[verifier::opaque]
spec fn acc_3_30() -> Seq<u8> {
    seq![126u8, 104u8, 194u8, 112u8, 147u8, 169u8, 42u8, 95u8, 135u8, 225u8, 12u8, 159u8, 67u8, 8u8, 157u8, 190u8]
}

#[verifier::opaque]
spec fn acc_3_31() -> Seq<u8> {
    seq![126u8, 104u8, 194u8, 112u8, 147u8, 169u8, 42u8, 95u8, 135u8, 225u8, 12u8, 159u8, 67u8, 8u8, 157u8, 190u8]
}

#[verifier::opaque]
spec fn acc_3_32() -> Seq<u8> {
    seq![126u8, 104u8, 194u8, 112u8, 147u8, 169u8, 42u8, 95u8, 135u8, 225u8, 12u8, 159u8, 67u8, 8u8, 157u8, 190u8]
}

#[verifier::opaque]
spec fn acc_3_33() -> Seq<u8> {
    seq![126u8, 104u8, 194u8, 112u8, 147u8, 169u8, 42u8, 95u8, 135u8, 225u8, 12u8, 159u8, 67u8, 8u8, 157u8, 190u8]
}

#[verifier::opaque]
spec fn acc_3_34() -> Seq<u8> {
    seq![175u8, 8u8, 38u8, 122u8, 140u8, 53u8, 235u8, 245u8, 223u8, 48u8, 115u8, 221u8, 122u8, 60u8, 178u8, 237u8]
}

#[verifier::opaque]
spec fn acc_3_35() -> Seq<u8> {
    seq![13u8, 201u8, 238u8, 111u8, 178u8, 13u8, 104u8, 160u8, 110u8, 146u8, 140u8, 89u8, 8u8, 84u8, 236u8, 75u8]
}

#[verifier::opaque]
spec fn acc_3_36() -> Seq<u8> {
    seq![206u8, 74u8, 127u8, 68u8, 206u8, 125u8, 110u8, 11u8, 12u8, 215u8, 115u8, 80u8, 237u8, 132u8, 80u8, 7u8]
}

#[verifier::opaque]
spec fn acc_3_37() -> Seq<u8> {
    seq![206u8, 74u8, 127u8, 68u8, 206u8, 125u8, 110u8, 11u8, 12u8, 215u8, 115u8, 80u8, 237u8, 132u8, 80u8, 7u8]
}

#[verifier::opaque]
spec fn acc_3_38() -> Seq<u8> {
    seq![69u8, 69u8, 57u8, 234u8, 62u8, 188u8, 119u8, 167u8, 134u8, 194u8, 142u8, 119u8, 121u8, 199u8, 163u8, 53u8]
}

#[verifier::opaque]
spec fn acc_3_39() -> Seq<u8> {
    seq![69u8, 69u8, 57u8, 234u8, 62u8, 188u8, 119u8, 167u8, 134u8, 194u8, 142u8, 119u8, 121u8, 199u8, 163u8, 53u8]
}

#[verifier::opaque]
spec fn acc_3_40() -> Seq<u8> {
    seq![105u8, 123u8, 33u8, 83u8, 252u8, 187u8, 16u8, 23u8, 172u8, 148u8, 122u8, 232u8, 41u8, 201u8, 110u8, 254u8]
}

#[verifier::opaque]
spec fn acc_3_41() -> Seq<u8> {
    seq![105u8, 123u8, 33u8, 83u8, 252u8, 187u8, 16u8, 23u8, 172u8, 148u8, 122u8, 232u8, 41u8, 201u8, 110u8, 254u8]
}

#[verifier::opaque]
spec fn acc_3_42() -> Seq<u8> {
    seq![80u8, 130u8, 65u8, 183u8, 246u8, 164u8, 140u8, 214u8, 6u8, 204u8, 171u8, 151u8, 107u8, 240u8, 90u8, 209u8]
}

#[verifier::opaque]
spec fn acc_3_43() -> Seq<u8> {
    seq![80u8, 130u8, 65u8, 183u8, 246u8, 164u8, 140u8, 214u8, 6u8, 204u8, 171u8, 151u8, 107u8, 240u8, 90u8, 209u8]
}

#[verifier::opaque]
spec fn acc_3_44() -> Seq<u8> {
    seq![80u8, 130u8, 65u8, 183u8, 246u8, 164u8, 140u8, 214u8, 6u8, 204u8, 171u8, 151u8, 107u8, 240u8, 90u8, 209u8]
}

#[verifier::opaque]
spec fn acc_3_45() -> Seq<u8> {
    seq![80u8, 130u8, 65u8, 183u8, 246u8, 164u8, 140u8, 214u8, 6u8, 204u8, 171u8, 151u8, 107u8, 240u8, 90u8, 209u8]
}

#[verifier::opaque]
spec fn acc_3_46() -> Seq<u8> {
    seq![80u8, 130u8, 65u8, 183u8, 246u8, 164u8, 140u8, 214u8, 6u8, 204u8, 171u8, 151u8, 107u8, 240u8, 90u8, 209u8]
}

#[verifier::opaque]
spec fn acc_3_47() -> Seq<u8> {
    seq![80u8, 130u8, 65u8, 183u8, 246u8, 164u8, 140u8, 214u8, 6u8, 204u8, 171u8, 151u8, 107u8, 240u8, 90u8, 209u8]
}

#[verifier::opaque]
spec fn acc_3_48() -> Seq<u8> {
    seq![80u8, 130u8, 65u8, 183u8, 246u8, 164u8, 140u8, 214u8, 6u8, 204u8, 171u8, 151u8, 107u8, 240u8, 90u8, 209u8]
}

#[verifier::opaque]
spec fn acc_3_49() -> Seq<u8> {
    seq![53u8, 21u8, 61u8, 135u8, 132u8, 33u8, 131u8, 24u8, 102u8, 153u8, 7u8, 127u8, 84u8, 81u8, 70u8, 75u8]
}

#[verifier::opaque]
spec fn acc_3_50() -> Seq<u8> {
    seq![120u8, 59u8, 196u8, 231u8, 96u8, 43u8, 156u8, 132u8, 167u8, 51u8, 95u8, 174u8, 43u8, 19u8, 127u8, 127u8]
}

#[verifier::opaque]
spec fn acc_3_51() -> Seq<u8> {
    seq![226u8, 103u8, 54u8, 38u8, 168u8, 62u8, 162u8, 188u8, 36u8, 102u8, 238u8, 12u8, 212u8, 151u8, 13u8, 23u8]
}

#[verifier::opaque]
spec fn acc_3_52() -> Seq<u8> {
    seq![214u8, 222u8, 210u8, 165u8, 57u8, 21u8, 222u8, 204u8, 34u8, 205u8, 140u8, 73u8, 43u8, 158u8, 232u8, 199u8]
}

#[verifier::opaque]
spec fn acc_3_53() -> Seq<u8> {
    seq![214u8, 222u8, 210u8, 165u8, 57u8, 21u8, 222u8, 204u8, 34u8, 205u8, 140u8, 73u8, 43u8, 158u8, 232u8, 199u8]
}

#[verifier::opaque]
spec fn acc_3_54() -> Seq<u8> {
    seq![214u8, 222u8, 210u8, 165u8, 57u8, 21u8, 222u8, 204u8, 34u8, 205u8, 140u8, 73u8, 43u8, 158u8, 232u8, 199u8]
}

#[verifier::opaque]
spec fn acc_3_55() -> Seq<u8> {
    seq![100u8, 20u8, 247u8, 186u8, 181u8, 73u8, 63u8, 79u8, 17u8, 149u8, 153u8, 98u8, 209u8, 209u8, 192u8, 64u8]
}

#[verifier::opaque]
spec fn acc_3_56() -> Seq<u8> {
    seq![135u8, 129u8, 188u8, 132u8, 173u8, 240u8, 253u8, 72u8, 118u8, 37u8, 179u8, 52u8, 37u8, 78u8, 144u8, 78u8]
}

#[verifier::opaque]
spec fn acc_3_57() -> Seq<u8> {
    seq![65u8, 170u8, 43u8, 248u8, 157u8, 130u8, 120u8, 71u8, 184u8, 69u8, 230u8, 152u8, 205u8, 113u8, 49u8, 82u8]
}

#[verifier::opaque]
spec fn acc_3_58() -> Seq<u8> {
    seq![205u8, 253u8, 5u8, 1u8, 253u8, 102u8, 114u8, 88u8, 36u8, 132u8, 76u8, 192u8, 28u8, 14u8, 115u8, 107u8]
}

#[verifier::opaque]
spec fn acc_3_59() -> Seq<u8> {
    seq![213u8, 82u8, 89u8, 243u8, 60u8, 174u8, 103u8, 102u8, 28u8, 7u8, 25u8, 113u8, 190u8, 241u8, 247u8, 25u8]
}

#[verifier::opaque]
spec fn acc_3_60() -> Seq<u8> {
    seq![229u8, 12u8, 224u8, 23u8, 191u8, 63u8, 76u8, 26u8, 108u8, 1u8, 178u8, 19u8, 251u8, 14u8, 254u8, 252u8]
}

#[verifier::opaque]
spec fn acc_3_61() -> Seq<u8> {
    seq![2u8, 176u8, 146u8, 222u8, 184u8, 28u8, 27u8, 226u8, 140u8, 13u8, 228u8, 214u8, 113u8, 240u8, 237u8, 54u8]
}

#[verifier::opaque]
spec fn acc_3_62() -> Seq<u8> {
    seq![75u8, 201u8, 119u8, 76u8, 183u8, 90u8, 181u8, 18u8, 77u8, 20u8, 72u8, 92u8, 100u8, 13u8, 202u8, 162u8]
}

#[verifier::opaque]
spec fn acc_3_63() -> Seq<u8> {
    seq![75u8, 201u8, 119u8, 76u8, 183u8, 90u8, 181u8, 18u8, 77u8, 20u8, 72u8, 92u8, 100u8, 13u8, 202u8, 162u8]
}

#[verifier::opaque]
spec fn acc_3_64() -> Seq<u8> {
    seq![97u8, 45u8, 226u8, 7u8, 137u8, 66u8, 12u8, 208u8, 74u8, 115u8, 248u8, 118u8, 50u8, 249u8, 85u8, 242u8]
}

#[verifier::opaque]
spec fn acc_3_65() -> Seq<u8> {
    seq![97u8, 45u8, 226u8, 7u8, 137u8, 66u8, 12u8, 208u8, 74u8, 115u8, 248u8, 118u8, 50u8, 249u8, 85u8, 242u8]
}

#[verifier::opaque]
spec fn acc_3_66() -> Seq<u8> {
    seq![78u8, 189u8, 181u8, 41u8, 112u8, 34u8, 232u8, 218u8, 85u8, 239u8, 57u8, 220u8, 106u8, 40u8, 42u8, 176u8]
}

#[verifier::opaque]
spec fn acc_3_67() -> Seq<u8> {
    seq![16u8, 157u8, 26u8, 117u8, 130u8, 227u8, 32u8, 207u8, 107u8, 215u8, 186u8, 137u8, 219u8, 138u8, 213u8, 52u8]
}

#[verifier::opaque]
spec fn acc_3_68() -> Seq<u8> {
    seq![16u8, 157u8, 26u8, 117u8, 130u8, 227u8, 32u8, 207u8, 107u8, 215u8, 186u8, 137u8, 219u8, 138u8, 213u8, 52u8]
}

#[verifier::opaque]
spec fn acc_3_69() -> Seq<u8> {
    seq![16u8, 157u8, 26u8, 117u8, 130u8, 227u8, 32u8, 207u8, 107u8, 215u8, 186u8, 137u8, 219u8, 138u8, 213u8, 52u8]
}

#[verifier::opaque]
spec fn acc_3_70() -> Seq<u8> {
    seq![16u8, 157u8, 26u8, 117u8, 130u8, 227u8, 32u8, 207u8, 107u8, 215u8, 186u8, 137u8, 219u8, 138u8, 213u8, 52u8]
}

#[verifier::opaque]
spec fn acc_3_71() -> Seq<u8> {
    seq![200u8, 156u8, 232u8, 191u8, 167u8, 252u8, 172u8, 147u8, 138u8, 84u8, 137u8, 209u8, 206u8, 161u8, 47u8, 123u8]
}

#[verifier::opaque]
spec fn acc_3_72() -> Seq<u8> {
    seq![120u8, 159u8, 12u8, 42u8, 236u8, 194u8, 180u8, 42u8, 72u8, 83u8, 238u8, 97u8, 228u8, 247u8, 219u8, 228u8]
}

#[verifier::opaque]
spec fn acc_3_73() -> Seq<u8> {
    seq![120u8, 159u8, 12u8, 42u8, 236u8, 194u8, 180u8, 42u8, 72u8, 83u8, 238u8, 97u8, 228u8, 247u8, 219u8, 228u8]
}

#[verifier::opaque]
spec fn acc_3_74() -> Seq<u8> {
    seq![182u8, 144u8, 156u8, 125u8, 194u8, 59u8, 212u8, 206u8, 66u8, 76u8, 114u8, 160u8, 78u8, 175u8, 10u8, 155u8]
}

#[verifier::opaque]
spec fn acc_3_75() -> Seq<u8> {
    seq![182u8, 144u8, 156u8, 125u8, 194u8, 59u8, 212u8, 206u8, 66u8, 76u8, 114u8, 160u8, 78u8, 175u8, 10u8, 155u8]
}

#[verifier::opaque]
spec fn acc_3_76() -> Seq<u8> {
    seq![182u8, 144u8, 156u8, 125u8, 194u8, 59u8, 212u8, 206u8, 66u8, 76u8, 114u8, 160u8, 78u8, 175u8, 10u8, 155u8]
}

#[verifier::opaque]
spec fn acc_3_77() -> Seq<u8> {
    seq![79u8, 239u8, 28u8, 193u8, 176u8, 242u8, 211u8, 237u8, 21u8, 180u8, 146u8, 172u8, 24u8, 106u8, 128u8, 101u8]
}

#[verifier::opaque]
spec fn acc_3_78() -> Seq<u8> {
    seq![79u8, 239u8, 28u8, 193u8, 176u8, 242u8, 211u8, 237u8, 21u8, 180u8, 146u8, 172u8, 24u8, 106u8, 128u8, 101u8]
}

#[verifier::opaque]
spec fn acc_3_79() -> Seq<u8> {
    seq![34u8, 17u8, 29u8, 51u8, 122u8, 215u8, 204u8, 97u8, 73u8, 85u8, 17u8, 159u8, 64u8, 127u8, 171u8, 159u8]
}

#[verifier::opaque]
spec fn acc_3_80() -> Seq<u8> {
    seq![127u8, 237u8, 30u8, 215u8, 239u8, 156u8, 242u8, 121u8, 240u8, 151u8, 22u8, 248u8, 240u8, 85u8, 253u8, 107u8]
}

#[verifier::opaque]
spec fn acc_3_81() -> Seq<u8> {
    seq![66u8, 21u8, 25u8, 31u8, 196u8, 11u8, 142u8, 73u8, 130u8, 18u8, 25u8, 54u8, 144u8, 0u8, 81u8, 131u8]
}

#[verifier::opaque]
spec fn acc_3_82() -> Seq<u8> {
    seq![66u8, 21u8, 25u8, 31u8, 196u8, 11u8, 142u8, 73u8, 130u8, 18u8, 25u8, 54u8, 144u8, 0u8, 81u8, 131u8]
}

#[verifier::opaque]
spec fn acc_3_83() -> Seq<u8> {
    seq![66u8, 21u8, 25u8, 31u8, 196u8, 11u8, 142u8, 73u8, 130u8, 18u8, 25u8, 54u8, 144u8, 0u8, 81u8, 131u8]
}

#[verifier::opaque]
spec fn acc_3_84() -> Seq<u8> {
    seq![66u8, 21u8, 25u8, 31u8, 196u8, 11u8, 142u8, 73u8, 130u8, 18u8, 25u8, 54u8, 144u8, 0u8, 81u8, 131u8]
}

#[verifier::opaque]
spec fn acc_3_85() -> Seq<u8> {
    seq![184u8, 145u8, 102u8, 159u8, 120u8, 121u8, 71u8, 78u8, 161u8, 69u8, 225u8, 214u8, 156u8, 86u8, 148u8, 9u8]
}

#[verifier::opaque]
spec fn acc_3_86() -> Seq<u8> {
    seq![184u8, 145u8, 102u8, 159u8, 120u8, 121u8, 71u8, 78u8, 161u8, 69u8, 225u8, 214u8, 156u8, 86u8, 148u8, 9u8]
}

#[verifier::opaque]
spec fn acc_3_87() -> Seq<u8> {
    seq![94u8, 131u8, 152u8, 158u8, 138u8, 179u8, 98u8, 81u8, 45u8, 25u8, 0u8, 85u8, 175u8, 14u8, 129u8, 34u8]
}

#[verifier::opaque]
spec fn acc_3_88() -> Seq<u8> {
    seq![94u8, 131u8, 152u8, 158u8, 138u8, 179u8, 98u8, 81u8, 45u8, 25u8, 0u8, 85u8, 175u8, 14u8, 129u8, 34u8]
}

#[verifier::opaque]
spec fn acc_3_89() -> Seq<u8> {
    seq![198u8, 200u8, 96u8, 153u8, 66u8, 152u8, 245u8, 45u8, 29u8, 107u8, 133u8, 90u8, 97u8, 110u8, 212u8, 142u8]
}

#[verifier::opaque]
spec fn acc_3_90() -> Seq<u8> {
    seq![198u8, 200u8, 96u8, 153u8, 66u8, 152u8, 245u8, 45u8, 29u8, 107u8, 133u8, 90u8, 97u8, 110u8, 212u8, 142u8]
}

#[verifier::opaque]
spec fn acc_3_91() -> Seq<u8> {
    seq![168u8, 231u8, 129u8, 134u8, 98u8, 55u8, 169u8, 223u8, 220u8, 163u8, 144u8, 100u8, 89u8, 237u8, 129u8, 63u8]
}

#[verifier::opaque]
spec fn acc_3_92() -> Seq<u8> {
    seq![243u8, 185u8, 67u8, 185u8, 34u8, 105u8, 16u8, 59u8, 95u8, 50u8, 187u8, 24u8, 41u8, 235u8, 42u8, 93u8]
}

#[verifier::opaque]
spec fn acc_3_93() -> Seq<u8> {
    seq![69u8, 5u8, 199u8, 198u8, 162u8, 213u8, 98u8, 242u8, 88u8, 17u8, 236u8, 224u8, 201u8, 231u8, 124u8, 152u8]
}

#[verifier::opaque]
spec fn acc_3_94() -> Seq<u8> {
    seq![174u8, 124u8, 206u8, 57u8, 162u8, 172u8, 135u8, 96u8, 87u8, 87u8, 66u8, 16u8, 8u8, 254u8, 208u8, 18u8]
}

#[verifier::opaque]
spec fn acc_3_95() -> Seq<u8> {
    seq![255u8, 143u8, 220u8, 199u8, 163u8, 94u8, 77u8, 69u8, 72u8, 219u8, 30u8, 241u8, 139u8, 205u8, 136u8, 7u8]
}

#[verifier::opaque]
spec fn acc_3_96() -> Seq<u8> {
    seq![255u8, 143u8, 220u8, 199u8, 163u8, 94u8, 77u8, 69u8, 72u8, 219u8, 30u8, 241u8, 139u8, 205u8, 136u8, 7u8]
}

#[verifier::opaque]
spec fn acc_3_97() -> Seq<u8> {
    seq![187u8, 66u8, 151u8, 63u8, 164u8, 150u8, 102u8, 210u8, 52u8, 235u8, 108u8, 116u8, 132u8, 3u8, 232u8, 82u8]
}

#[verifier::opaque]
spec fn acc_3_98() -> Seq<u8> {
    seq![51u8, 216u8, 0u8, 207u8, 171u8, 6u8, 49u8, 252u8, 205u8, 139u8, 136u8, 126u8, 155u8, 159u8, 41u8, 248u8]
}

#[verifier::opaque]
spec fn acc_3_99() -> Seq<u8> {
    seq![164u8, 237u8, 47u8, 46u8, 180u8, 38u8, 158u8, 160u8, 63u8, 74u8, 64u8, 107u8, 165u8, 167u8, 170u8, 173u8]
}

#[verifier::opaque]
spec fn acc_3_100() -> Seq<u8> {
    seq![138u8, 134u8, 113u8, 236u8, 139u8, 102u8, 192u8, 25u8, 219u8, 201u8, 209u8, 64u8, 217u8, 215u8, 172u8, 6u8]
}

#[verifier::opaque]
spec fn acc_3_101() -> Seq<u8> {
    seq![138u8, 134u8, 113u8, 236u8, 139u8, 102u8, 192u8, 25u8, 219u8, 201u8, 209u8, 64u8, 217u8, 215u8, 172u8, 6u8]
}

#[verifier::opaque]
spec fn acc_3_102() -> Seq<u8> {
    seq![138u8, 134u8, 113u8, 236u8, 139u8, 102u8, 192u8, 25u8, 219u8, 201u8, 209u8, 64u8, 217u8, 215u8, 172u8, 6u8]
}

#[verifier::opaque]
spec fn acc_3_103() -> Seq<u8> {
    seq![97u8, 221u8, 130u8, 254u8, 117u8, 103u8, 50u8, 211u8, 254u8, 214u8, 93u8, 28u8, 56u8, 84u8, 159u8, 94u8]
}

#[verifier::opaque]
spec fn acc_3_104() -> Seq<u8> {
    seq![97u8, 221u8, 130u8, 254u8, 117u8, 103u8, 50u8, 211u8, 254u8, 214u8, 93u8, 28u8, 56u8, 84u8, 159u8, 94u8]
}

#[verifier::opaque]
spec fn acc_3_105() -> Seq<u8> {
    seq![97u8, 221u8, 130u8, 254u8, 117u8, 103u8, 50u8, 211u8, 254u8, 214u8, 93u8, 28u8, 56u8, 84u8, 159u8, 94u8]
}

#[verifier::opaque]
spec fn acc_3_106() -> Seq<u8> {
    seq![97u8, 221u8, 130u8, 254u8, 117u8, 103u8, 50u8, 211u8, 254u8, 214u8, 93u8, 28u8, 56u8, 84u8, 159u8, 94u8]
}

#[verifier::opaque]
spec fn acc_3_107() -> Seq<u8> {
    seq![97u8, 221u8, 130u8, 254u8, 117u8, 103u8, 50u8, 211u8, 254u8, 214u8, 93u8, 28u8, 56u8, 84u8, 159u8, 94u8]
}

#[verifier::opaque]
spec fn acc_3_108() -> Seq<u8> {
    seq![97u8, 221u8, 130u8, 254u8, 117u8, 103u8, 50u8, 211u8, 254u8, 214u8, 93u8, 28u8, 56u8, 84u8, 159u8, 94u8]
}

#[verifier::opaque]
spec fn acc_3_109() -> Seq<u8> {
    seq![97u8, 221u8, 130u8, 254u8, 117u8, 103u8, 50u8, 211u8, 254u8, 214u8, 93u8, 28u8, 56u8, 84u8, 159u8, 94u8]
}

#[verifier::opaque]
spec fn acc_3_110() -> Seq<u8> {
    seq![37u8, 62u8, 47u8, 135u8, 124u8, 152u8, 50u8, 170u8, 27u8, 68u8, 82u8, 90u8, 150u8, 164u8, 94u8, 71u8]
}

#[verifier::opaque]
spec fn acc_3_111() -> Seq<u8> {
    seq![173u8, 248u8, 116u8, 116u8, 110u8, 102u8, 51u8, 88u8, 209u8, 97u8, 77u8, 214u8, 202u8, 69u8, 221u8, 116u8]
}

#[verifier::opaque]
spec fn acc_3_112() -> Seq<u8> {
    seq![173u8, 248u8, 116u8, 116u8, 110u8, 102u8, 51u8, 88u8, 209u8, 97u8, 77u8, 214u8, 202u8, 69u8, 221u8, 116u8]
}

#[verifier::opaque]
spec fn acc_3_113() -> Seq<u8> {
    seq![141u8, 226u8, 27u8, 185u8, 37u8, 158u8, 52u8, 144u8, 250u8, 246u8, 49u8, 230u8, 184u8, 192u8, 210u8, 186u8]
}

#[verifier::opaque]
spec fn acc_3_114() -> Seq<u8> {
    seq![141u8, 226u8, 27u8, 185u8, 37u8, 158u8, 52u8, 144u8, 250u8, 246u8, 49u8, 230u8, 184u8, 192u8, 210u8, 186u8]
}

#[verifier::opaque]
spec fn acc_3_115() -> Seq<u8> {
    seq![132u8, 139u8, 167u8, 140u8, 10u8, 127u8, 43u8, 176u8, 85u8, 170u8, 195u8, 39u8, 112u8, 213u8, 236u8, 130u8]
}

#[verifier::opaque]
spec fn acc_3_116() -> Seq<u8> {
    seq![150u8, 89u8, 223u8, 231u8, 84u8, 189u8, 20u8, 240u8, 11u8, 19u8, 39u8, 164u8, 225u8, 254u8, 144u8, 242u8]
}

#[verifier::opaque]
spec fn acc_3_117() -> Seq<u8> {
    seq![150u8, 89u8, 223u8, 231u8, 84u8, 189u8, 20u8, 240u8, 11u8, 19u8, 39u8, 164u8, 225u8, 254u8, 144u8, 242u8]
}

#[verifier::opaque]
spec fn acc_3_118() -> Seq<u8> {
    seq![89u8, 17u8, 60u8, 74u8, 45u8, 180u8, 235u8, 240u8, 114u8, 246u8, 181u8, 171u8, 167u8, 80u8, 96u8, 51u8]
}

#[verifier::opaque]
spec fn acc_3_119() -> Seq<u8> {
    seq![89u8, 17u8, 60u8, 74u8, 45u8, 180u8, 235u8, 240u8, 114u8, 246u8, 181u8, 171u8, 167u8, 80u8, 96u8, 51u8]
}

#[verifier::opaque]
spec fn acc_3_120() -> Seq<u8> {
    seq![236u8, 51u8, 177u8, 253u8, 203u8, 145u8, 23u8, 243u8, 150u8, 99u8, 254u8, 149u8, 191u8, 233u8, 162u8, 52u8]
}

#[verifier::opaque]
spec fn acc_3_121() -> Seq<u8> {
    seq![134u8, 118u8, 171u8, 146u8, 6u8, 218u8, 239u8, 244u8, 94u8, 72u8, 105u8, 233u8, 143u8, 155u8, 39u8, 59u8]
}

#[verifier::opaque]
spec fn acc_3_122() -> Seq<u8> {
    seq![134u8, 118u8, 171u8, 146u8, 6u8, 218u8, 239u8, 244u8, 94u8, 72u8, 105u8, 233u8, 143u8, 155u8, 39u8, 59u8]
}

#[verifier::opaque]
spec fn acc_3_123() -> Seq<u8> {
    seq![46u8, 99u8, 194u8, 46u8, 51u8, 245u8, 14u8, 235u8, 126u8, 231u8, 53u8, 27u8, 78u8, 83u8, 50u8, 5u8]
}

#[verifier::opaque]
spec fn acc_3_124() -> Seq<u8> {
    seq![46u8, 99u8, 194u8, 46u8, 51u8, 245u8, 14u8, 235u8, 126u8, 231u8, 53u8, 27u8, 78u8, 83u8, 50u8, 5u8]
}

#[verifier::opaque]
spec fn acc_3_125() -> Seq<u8> {
    seq![142u8, 53u8, 102u8, 223u8, 229u8, 73u8, 138u8, 148u8, 254u8, 91u8, 71u8, 210u8, 73u8, 112u8, 101u8, 253u8]
}

#[verifier::opaque]
spec fn acc_3_126() -> Seq<u8> {
    seq![73u8, 152u8, 46u8, 60u8, 72u8, 48u8, 131u8, 107u8, 254u8, 34u8, 162u8, 64u8, 70u8, 54u8, 203u8, 13u8]
}

#[verifier::opaque]
spec fn acc_3_127() -> Seq<u8> {
    seq![73u8, 152u8, 46u8, 60u8, 72u8, 48u8, 131u8, 107u8, 254u8, 34u8, 162u8, 64u8, 70u8, 54u8, 203u8, 13u8]
}

#[verifier::opaque]
spec fn acc_3_128() -> Seq<u8> {
    seq![73u8, 152u8, 46u8, 60u8, 72u8, 48u8, 131u8, 107u8, 254u8, 34u8, 162u8, 64u8, 70u8, 54u8, 203u8, 13u8]
}

proof fn lemma_acc_3_0()
    ensures
        shift_add_mul(alpha_spec(), alpha_pow_3(), 0) == acc_3_0(),
{
    reveal(acc_3_0);
    assert(shift_add_mul(alpha_spec(), alpha_pow_3(), 0) =~= acc_3_0());
}

proof fn lemma_acc_3_1()
    ensures
        shift_add_mul(alpha_spec(), alpha_pow_3(), 1) == acc_3_1(),
{
    lemma_acc_3_0();
    lemma_alpha_x_0();
    lemma_alpha_byte_facts();
    reveal(bytes_p_3_1);
    reveal(alpha_pow_3);
    reveal(acc_3_0);
    reveal(acc_3_1);
    reveal(alpha_x_0);
    assert(bits_of_bytes(alpha_pow_3())[0] == bit_of(168u8, 0));
    assert(shift_add_mul(alpha_spec(), alpha_pow_3(), 1) =~= acc_3_1());
}

proof fn lemma_acc_3_2()
    ensures
        shift_add_mul(alpha_spec(), alpha_pow_3(), 2) == acc_3_2(),
{
    lemma_acc_3_1();
    lemma_alpha_x_1();
    lemma_alpha_byte_facts();
    reveal(bytes_p_3_2);
    reveal(alpha_pow_3);
    reveal(acc_3_1);
    reveal(acc_3_2);
    reveal(alpha_x_1);
    assert(bits_of_bytes(alpha_pow_3())[1] == bit_of(168u8, 1));
    assert(shift_add_mul(alpha_spec(), alpha_pow_3(), 2) =~= acc_3_2());
}

proof fn lemma_acc_3_3()
    ensures
        shift_add_mul(alpha_spec(), alpha_pow_3(), 3) == acc_3_3(),
{
    lemma_acc_3_2();
    lemma_alpha_x_2();
    lemma_alpha_byte_facts();
    reveal(bytes_p_3_3);
    reveal(alpha_pow_3);
    reveal(acc_3_2);
    reveal(acc_3_3);
    reveal(alpha_x_2);
    assert(bits_of_bytes(alpha_pow_3())[2] == bit_of(168u8, 2));
    assert(shift_add_mul(alpha_spec(), alpha_pow_3(), 3) =~= acc_3_3());
}

proof fn lemma_acc_3_4()
    ensures
        shift_add_mul(alpha_spec(), alpha_pow_3(), 4) == acc_3_4(),
{
    lemma_acc_3_3();
    lemma_alpha_x_3();
    lemma_alpha_byte_facts();
    reveal(bytes_p_3_4);
    reveal(alpha_pow_3);
    reveal(acc_3_3);
    reveal(acc_3_4);
    reveal(alpha_x_3);
    assert(bits_of_bytes(alpha_pow_3())[3] == bit_of(168u8, 3));
    assert(shift_add_mul(alpha_spec(), alpha_pow_3(), 4) =~= acc_3_4());
}

proof fn lemma_acc_3_5()
    ensures
        shift_add_mul(alpha_spec(), alpha_pow_3(), 5) == acc_3_5(),
{
    lemma_acc_3_4();
    lemma_alpha_x_4();
    lemma_alpha_byte_facts();
    reveal(bytes_p_3_5);
    reveal(alpha_pow_3);
    reveal(acc_3_4);
    reveal(acc_3_5);
    reveal(alpha_x_4);
    assert(bits_of_bytes(alpha_pow_3())[4] == bit_of(168u8, 4));
    assert(shift_add_mul(alpha_spec(), alpha_pow_3(), 5) =~= acc_3_5());
}

proof fn lemma_acc_3_6()
    ensures
        shift_add_mul(alpha_spec(), alpha_pow_3(), 6) == acc_3_6(),
{
    lemma_acc_3_5();
    lemma_alpha_x_5();
    lemma_alpha_byte_facts();
    reveal(bytes_p_3_6);
    reveal(alpha_pow_3);
    reveal(acc_3_5);
    reveal(acc_3_6);
    reveal(alpha_x_5);
    assert(bits_of_bytes(alpha_pow_3())[5] == bit_of(168u8, 5));
    assert(shift_add_mul(alpha_spec(), alpha_pow_3(), 6) =~= acc_3_6());
}

proof fn lemma_acc_3_7()
    ensures
        shift_add_mul(alpha_spec(), alpha_pow_3(), 7) == acc_3_7(),
{
    lemma_acc_3_6();
    lemma_alpha_x_6();
    lemma_alpha_byte_facts();
    reveal(bytes_p_3_7);
    reveal(alpha_pow_3);
    reveal(acc_3_6);
    reveal(acc_3_7);
    reveal(alpha_x_6);
    assert(bits_of_bytes(alpha_pow_3())[6] == bit_of(168u8, 6));
    assert(shift_add_mul(alpha_spec(), alpha_pow_3(), 7) =~= acc_3_7());
}

proof fn lemma_acc_3_8()
    ensures
        shift_add_mul(alpha_spec(), alpha_pow_3(), 8) == acc_3_8(),
{
    lemma_acc_3_7();
    lemma_alpha_x_7();
    lemma_alpha_byte_facts();
    reveal(bytes_p_3_8);
    reveal(alpha_pow_3);
    reveal(acc_3_7);
    reveal(acc_3_8);
    reveal(alpha_x_7);
    assert(bits_of_bytes(alpha_pow_3())[7] == bit_of(168u8, 7));
    assert(shift_add_mul(alpha_spec(), alpha_pow_3(), 8) =~= acc_3_8());
}

proof fn lemma_acc_3_9()
    ensures
        shift_add_mul(alpha_spec(), alpha_pow_3(), 9) == acc_3_9(),
{
    lemma_acc_3_8();
    lemma_alpha_x_8();
    lemma_alpha_byte_facts();
    reveal(bytes_p_3_9);
    reveal(alpha_pow_3);
    reveal(acc_3_8);
    reveal(acc_3_9);
    reveal(alpha_x_8);
    assert(bits_of_bytes(alpha_pow_3())[8] == bit_of(70u8, 0));
    assert(shift_add_mul(alpha_spec(), alpha_pow_3(), 9) =~= acc_3_9());
}

proof fn lemma_acc_3_10()
    ensures
        shift_add_mul(alpha_spec(), alpha_pow_3(), 10) == acc_3_10(),
{
    lemma_acc_3_9();
    lemma_alpha_x_9();
    lemma_alpha_byte_facts();
    reveal(bytes_p_3_10);
    reveal(alpha_pow_3);
    reveal(acc_3_9);
    reveal(acc_3_10);
    reveal(alpha_x_9);
    assert(bits_of_bytes(alpha_pow_3())[9] == bit_of(70u8, 1));
    assert(shift_add_mul(alpha_spec(), alpha_pow_3(), 10) =~= acc_3_10());
}

proof fn lemma_acc_3_11()
    ensures
        shift_add_mul(alpha_spec(), alpha_pow_3(), 11) == acc_3_11(),
{
    lemma_acc_3_10();
    lemma_alpha_x_10();
    lemma_alpha_byte_facts();
    reveal(bytes_p_3_11);
    reveal(alpha_pow_3);
    reveal(acc_3_10);
    reveal(acc_3_11);
    reveal(alpha_x_10);
    assert(bits_of_bytes(alpha_pow_3())[10] == bit_of(70u8, 2));
    assert(shift_add_mul(alpha_spec(), alpha_pow_3(), 11) =~= acc_3_11());
}

proof fn lemma_acc_3_12()
    ensures
        shift_add_mul(alpha_spec(), alpha_pow_3(), 12) == acc_3_12(),
{
    lemma_acc_3_11();
    lemma_alpha_x_11();
    lemma_alpha_byte_facts();
    reveal(bytes_p_3_12);
    reveal(alpha_pow_3);
    reveal(acc_3_11);
    reveal(acc_3_12);
    reveal(alpha_x_11);
    assert(bits_of_bytes(alpha_pow_3())[11] == bit_of(70u8, 3));
    assert(shift_add_mul(alpha_spec(), alpha_pow_3(), 12) =~= acc_3_12());
}

proof fn lemma_acc_3_13()
    ensures
        shift_add_mul(alpha_spec(), alpha_pow_3(), 13) == acc_3_13(),
{
    lemma_acc_3_12();
    lemma_alpha_x_12();
    lemma_alpha_byte_facts();
    reveal(bytes_p_3_13);
    reveal(alpha_pow_3);
    reveal(acc_3_12);
    reveal(acc_3_13);
    reveal(alpha_x_12);
    assert(bits_of_bytes(alpha_pow_3())[12] == bit_of(70u8, 4));
    assert(shift_add_mul(alpha_spec(), alpha_pow_3(), 13) =~= acc_3_13());
}

proof fn lemma_acc_3_14()
    ensures
        shift_add_mul(alpha_spec(), alpha_pow_3(), 14) == acc_3_14(),
{
    lemma_acc_3_13();
    lemma_alpha_x_13();
    lemma_alpha_byte_facts();
    reveal(bytes_p_3_14);
    reveal(alpha_pow_3);
    reveal(acc_3_13);
    reveal(acc_3_14);
    reveal(alpha_x_13);
    assert(bits_of_bytes(alpha_pow_3())[13] == bit_of(70u8, 5));
    assert(shift_add_mul(alpha_spec(), alpha_pow_3(), 14) =~= acc_3_14());
}

proof fn lemma_acc_3_15()
    ensures
        shift_add_mul(alpha_spec(), alpha_pow_3(), 15) == acc_3_15(),
{
    lemma_acc_3_14();
    lemma_alpha_x_14();
    lemma_alpha_byte_facts();
    reveal(bytes_p_3_15);
    reveal(alpha_pow_3);
    reveal(acc_3_14);
    reveal(acc_3_15);
    reveal(alpha_x_14);
    assert(bits_of_bytes(alpha_pow_3())[14] == bit_of(70u8, 6));
    assert(shift_add_mul(alpha_spec(), alpha_pow_3(), 15) =~= acc_3_15());
}

proof fn lemma_acc_3_16()
    ensures
        shift_add_mul(alpha_spec(), alpha_pow_3(), 16) == acc_3_16(),
{
    lemma_acc_3_15();
    lemma_alpha_x_15();
    lemma_alpha_byte_facts();
    reveal(bytes_p_3_16);
    reveal(alpha_pow_3);
    reveal(acc_3_15);
    reveal(acc_3_16);
    reveal(alpha_x_15);
    assert(bits_of_bytes(alpha_pow_3())[15] == bit_of(70u8, 7));
    assert(shift_add_mul(alpha_spec(), alpha_pow_3(), 16) =~= acc_3_16());
}

proof fn lemma_acc_3_17()
    ensures
        shift_add_mul(alpha_spec(), alpha_pow_3(), 17) == acc_3_17(),
{
    lemma_acc_3_16();
    lemma_alpha_x_16();
    lemma_alpha_byte_facts();
    reveal(bytes_p_3_17);
    reveal(alpha_pow_3);
    reveal(acc_3_16);
    reveal(acc_3_17);
    reveal(alpha_x_16);
    assert(bits_of_bytes(alpha_pow_3())[16] == bit_of(57u8, 0));
    assert(shift_add_mul(alpha_spec(), alpha_pow_3(), 17) =~= acc_3_17());
}

proof fn lemma_acc_3_18()
    ensures
        shift_add_mul(alpha_spec(), alpha_pow_3(), 18) == acc_3_18(),
{
    lemma_acc_3_17();
    lemma_alpha_x_17();
    lemma_alpha_byte_facts();
    reveal(bytes_p_3_18);
    reveal(alpha_pow_3);
    reveal(acc_3_17);
    reveal(acc_3_18);
    reveal(alpha_x_17);
    assert(bits_of_bytes(alpha_pow_3())[17] == bit_of(57u8, 1));
    assert(shift_add_mul(alpha_spec(), alpha_pow_3(), 18) =~= acc_3_18());
}

proof fn lemma_acc_3_19()
    ensures
        shift_add_mul(alpha_spec(), alpha_pow_3(), 19) == acc_3_19(),
{
    lemma_acc_3_18();
    lemma_alpha_x_18();
    lemma_alpha_byte_facts();
    reveal(bytes_p_3_19);
    reveal(alpha_pow_3);
    reveal(acc_3_18);
    reveal(acc_3_19);
    reveal(alpha_x_18);
    assert(bits_of_bytes(alpha_pow_3())[18] == bit_of(57u8, 2));
    assert(shift_add_mul(alpha_spec(), alpha_pow_3(), 19) =~= acc_3_19());
}

proof fn lemma_acc_3_20()
    ensures
        shift_add_mul(alpha_spec(), alpha_pow_3(), 20) == acc_3_20(),
{
    lemma_acc_3_19();
    lemma_alpha_x_19();
    lemma_alpha_byte_facts();
    reveal(bytes_p_3_20);
    reveal(alpha_pow_3);
    reveal(acc_3_19);
    reveal(acc_3_20);
    reveal(alpha_x_19);
    assert(bits_of_bytes(alpha_pow_3())[19] == bit_of(57u8, 3));
    assert(shift_add_mul(alpha_spec(), alpha_pow_3(), 20) =~= acc_3_20());
}

proof fn lemma_acc_3_21()
    ensures
        shift_add_mul(alpha_spec(), alpha_pow_3(), 21) == acc_3_21(),
{
    lemma_acc_3_20();
    lemma_alpha_x_20();
    lemma_alpha_byte_facts();
    reveal(bytes_p_3_21);
    reveal(alpha_pow_3);
    reveal(acc_3_20);
    reveal(acc_3_21);
    reveal(alpha_x_20);
    assert(bits_of_bytes(alpha_pow_3())[20] == bit_of(57u8, 4));
    assert(shift_add_mul(alpha_spec(), alpha_pow_3(), 21) =~= acc_3_21());
}

proof fn lemma_acc_3_22()
    ensures
        shift_add_mul(alpha_spec(), alpha_pow_3(), 22) == acc_3_22(),
{
    lemma_acc_3_21();
    lemma_alpha_x_21();
    lemma_alpha_byte_facts();
    reveal(bytes_p_3_22);
    reveal(alpha_pow_3);
    reveal(acc_3_21);
    reveal(acc_3_22);
    reveal(alpha_x_21);
    assert(bits_of_bytes(alpha_pow_3())[21] == bit_of(57u8, 5));
    assert(shift_add_mul(alpha_spec(), alpha_pow_3(), 22) =~= acc_3_22());
}

proof fn lemma_acc_3_23()
    ensures
        shift_add_mul(alpha_spec(), alpha_pow_3(), 23) == acc_3_23(),
{
    lemma_acc_3_22();
    lemma_alpha_x_22();
    lemma_alpha_byte_facts();
    reveal(bytes_p_3_23);
    reveal(alpha_pow_3);
    reveal(acc_3_22);
    reveal(acc_3_23);
    reveal(alpha_x_22);
    assert(bits_of_bytes(alpha_pow_3())[22] == bit_of(57u8, 6));
    assert(shift_add_mul(alpha_spec(), alpha_pow_3(), 23) =~= acc_3_23());
}

proof fn lemma_acc_3_24()
    ensures
        shift_add_mul(alpha_spec(), alpha_pow_3(), 24) == acc_3_24(),
{
    lemma_acc_3_23();
    lemma_alpha_x_23();
    lemma_alpha_byte_facts();
    reveal(bytes_p_3_24);
    reveal(alpha_pow_3);
    reveal(acc_3_23);
    reveal(acc_3_24);
    reveal(alpha_x_23);
    assert(bits_of_bytes(alpha_pow_3())[23] == bit_of(57u8, 7));
    assert(shift_add_mul(alpha_spec(), alpha_pow_3(), 24) =~= acc_3_24());
}

proof fn lemma_acc_3_25()
    ensures
        shift_add_mul(alpha_spec(), alpha_pow_3(), 25) == acc_3_25(),
{
    lemma_acc_3_24();
    lemma_alpha_x_24();
    lemma_alpha_byte_facts();
    reveal(bytes_p_3_25);
    reveal(alpha_pow_3);
    reveal(acc_3_24);
    reveal(acc_3_25);
    reveal(alpha_x_24);
    assert(bits_of_bytes(alpha_pow_3())[24] == bit_of(54u8, 0));
    assert(shift_add_mul(alpha_spec(), alpha_pow_3(), 25) =~= acc_3_25());
}

proof fn lemma_acc_3_26()
    ensures
        shift_add_mul(alpha_spec(), alpha_pow_3(), 26) == acc_3_26(),
{
    lemma_acc_3_25();
    lemma_alpha_x_25();
    lemma_alpha_byte_facts();
    reveal(bytes_p_3_26);
    reveal(alpha_pow_3);
    reveal(acc_3_25);
    reveal(acc_3_26);
    reveal(alpha_x_25);
    assert(bits_of_bytes(alpha_pow_3())[25] == bit_of(54u8, 1));
    assert(shift_add_mul(alpha_spec(), alpha_pow_3(), 26) =~= acc_3_26());
}

proof fn lemma_acc_3_27()
    ensures
        shift_add_mul(alpha_spec(), alpha_pow_3(), 27) == acc_3_27(),
{
    lemma_acc_3_26();
    lemma_alpha_x_26();
    lemma_alpha_byte_facts();
    reveal(bytes_p_3_27);
    reveal(alpha_pow_3);
    reveal(acc_3_26);
    reveal(acc_3_27);
    reveal(alpha_x_26);
    assert(bits_of_bytes(alpha_pow_3())[26] == bit_of(54u8, 2));
    assert(shift_add_mul(alpha_spec(), alpha_pow_3(), 27) =~= acc_3_27());
}

proof fn lemma_acc_3_28()
    ensures
        shift_add_mul(alpha_spec(), alpha_pow_3(), 28) == acc_3_28(),
{
    lemma_acc_3_27();
    lemma_alpha_x_27();
    lemma_alpha_byte_facts();
    reveal(bytes_p_3_28);
    reveal(alpha_pow_3);
    reveal(acc_3_27);
    reveal(acc_3_28);
    reveal(alpha_x_27);
    assert(bits_of_bytes(alpha_pow_3())[27] == bit_of(54u8, 3));
    assert(shift_add_mul(alpha_spec(), alpha_pow_3(), 28) =~= acc_3_28());
}

proof fn lemma_acc_3_29()
    ensures
        shift_add_mul(alpha_spec(), alpha_pow_3(), 29) == acc_3_29(),
{
    lemma_acc_3_28();
    lemma_alpha_x_28();
    lemma_alpha_byte_facts();
    reveal(bytes_p_3_29);
    reveal(alpha_pow_3);
    reveal(acc_3_28);
    reveal(acc_3_29);
    reveal(alpha_x_28);
    assert(bits_of_bytes(alpha_pow_3())[28] == bit_of(54u8, 4));
    assert(shift_add_mul(alpha_spec(), alpha_pow_3(), 29) =~= acc_3_29());
}

proof fn lemma_acc_3_30()
    ensures
        shift_add_mul(alpha_spec(), alpha_pow_3(), 30) == acc_3_30(),
{
    lemma_acc_3_29();
    lemma_alpha_x_29();
    lemma_alpha_byte_facts();
    reveal(bytes_p_3_30);
    reveal(alpha_pow_3);
    reveal(acc_3_29);
    reveal(acc_3_30);
    reveal(alpha_x_29);
    assert(bits_of_bytes(alpha_pow_3())[29] == bit_of(54u8, 5));
    assert(shift_add_mul(alpha_spec(), alpha_pow_3(), 30) =~= acc_3_30());
}

proof fn lemma_acc_3_31()
    ensures
        shift_add_mul(alpha_spec(), alpha_pow_3(), 31) == acc_3_31(),
{
    lemma_acc_3_30();
    lemma_alpha_x_30();
    lemma_alpha_byte_facts();
    reveal(bytes_p_3_31);
    reveal(alpha_pow_3);
    reveal(acc_3_30);
    reveal(acc_3_31);
    reveal(alpha_x_30);
    assert(bits_of_bytes(alpha_pow_3())[30] == bit_of(54u8, 6));
    assert(shift_add_mul(alpha_spec(), alpha_pow_3(), 31) =~= acc_3_31());
}

proof fn lemma_acc_3_32()
    ensures
        shift_add_mul(alpha_spec(), alpha_pow_3(), 32) == acc_3_32(),
{
    lemma_acc_3_31();
    lemma_alpha_x_31();
    lemma_alpha_byte_facts();
    reveal(bytes_p_3_32);
    reveal(alpha_pow_3);
    reveal(acc_3_31);
    reveal(acc_3_32);
    reveal(alpha_x_31);
    assert(bits_of_bytes(alpha_pow_3())[31] == bit_of(54u8, 7));
    assert(shift_add_mul(alpha_spec(), alpha_pow_3(), 32) =~= acc_3_32());
}

proof fn lemma_acc_3_33()
    ensures
        shift_add_mul(alpha_spec(), alpha_pow_3(), 33) == acc_3_33(),
{
    lemma_acc_3_32();
    lemma_alpha_x_32();
    lemma_alpha_byte_facts();
    reveal(bytes_p_3_33);
    reveal(alpha_pow_3);
    reveal(acc_3_32);
    reveal(acc_3_33);
    reveal(alpha_x_32);
    assert(bits_of_bytes(alpha_pow_3())[32] == bit_of(174u8, 0));
    assert(shift_add_mul(alpha_spec(), alpha_pow_3(), 33) =~= acc_3_33());
}

proof fn lemma_acc_3_34()
    ensures
        shift_add_mul(alpha_spec(), alpha_pow_3(), 34) == acc_3_34(),
{
    lemma_acc_3_33();
    lemma_alpha_x_33();
    lemma_alpha_byte_facts();
    reveal(bytes_p_3_34);
    reveal(alpha_pow_3);
    reveal(acc_3_33);
    reveal(acc_3_34);
    reveal(alpha_x_33);
    assert(bits_of_bytes(alpha_pow_3())[33] == bit_of(174u8, 1));
    assert(shift_add_mul(alpha_spec(), alpha_pow_3(), 34) =~= acc_3_34());
}

proof fn lemma_acc_3_35()
    ensures
        shift_add_mul(alpha_spec(), alpha_pow_3(), 35) == acc_3_35(),
{
    lemma_acc_3_34();
    lemma_alpha_x_34();
    lemma_alpha_byte_facts();
    reveal(bytes_p_3_35);
    reveal(alpha_pow_3);
    reveal(acc_3_34);
    reveal(acc_3_35);
    reveal(alpha_x_34);
    assert(bits_of_bytes(alpha_pow_3())[34] == bit_of(174u8, 2));
    assert(shift_add_mul(alpha_spec(), alpha_pow_3(), 35) =~= acc_3_35());
}

proof fn lemma_acc_3_36()
    ensures
        shift_add_mul(alpha_spec(), alpha_pow_3(), 36) == acc_3_36(),
{
    lemma_acc_3_35();
    lemma_alpha_x_35();
    lemma_alpha_byte_facts();
    reveal(bytes_p_3_36);
    reveal(alpha_pow_3);
    reveal(acc_3_35);
    reveal(acc_3_36);
    reveal(alpha_x_35);
    assert(bits_of_bytes(alpha_pow_3())[35] == bit_of(174u8, 3));
    assert(shift_add_mul(alpha_spec(), alpha_pow_3(), 36) =~= acc_3_36());
}

proof fn lemma_acc_3_37()
    ensures
        shift_add_mul(alpha_spec(), alpha_pow_3(), 37) == acc_3_37(),
{
    lemma_acc_3_36();
    lemma_alpha_x_36();
    lemma_alpha_byte_facts();
    reveal(bytes_p_3_37);
    reveal(alpha_pow_3);
    reveal(acc_3_36);
    reveal(acc_3_37);
    reveal(alpha_x_36);
    assert(bits_of_bytes(alpha_pow_3())[36] == bit_of(174u8, 4));
    assert(shift_add_mul(alpha_spec(), alpha_pow_3(), 37) =~= acc_3_37());
}

proof fn lemma_acc_3_38()
    ensures
        shift_add_mul(alpha_spec(), alpha_pow_3(), 38) == acc_3_38(),
{
    lemma_acc_3_37();
    lemma_alpha_x_37();
    lemma_alpha_byte_facts();
    reveal(bytes_p_3_38);
    reveal(alpha_pow_3);
    reveal(acc_3_37);
    reveal(acc_3_38);
    reveal(alpha_x_37);
    assert(bits_of_bytes(alpha_pow_3())[37] == bit_of(174u8, 5));
    assert(shift_add_mul(alpha_spec(), alpha_pow_3(), 38) =~= acc_3_38());
}

proof fn lemma_acc_3_39()
    ensures
        shift_add_mul(alpha_spec(), alpha_pow_3(), 39) == acc_3_39(),
{
    lemma_acc_3_38();
    lemma_alpha_x_38();
    lemma_alpha_byte_facts();
    reveal(bytes_p_3_39);
    reveal(alpha_pow_3);
    reveal(acc_3_38);
    reveal(acc_3_39);
    reveal(alpha_x_38);
    assert(bits_of_bytes(alpha_pow_3())[38] == bit_of(174u8, 6));
    assert(shift_add_mul(alpha_spec(), alpha_pow_3(), 39) =~= acc_3_39());
}

proof fn lemma_acc_3_40()
    ensures
        shift_add_mul(alpha_spec(), alpha_pow_3(), 40) == acc_3_40(),
{
    lemma_acc_3_39();
    lemma_alpha_x_39();
    lemma_alpha_byte_facts();
    reveal(bytes_p_3_40);
    reveal(alpha_pow_3);
    reveal(acc_3_39);
    reveal(acc_3_40);
    reveal(alpha_x_39);
    assert(bits_of_bytes(alpha_pow_3())[39] == bit_of(174u8, 7));
    assert(shift_add_mul(alpha_spec(), alpha_pow_3(), 40) =~= acc_3_40());
}

proof fn lemma_acc_3_41()
    ensures
        shift_add_mul(alpha_spec(), alpha_pow_3(), 41) == acc_3_41(),
{
    lemma_acc_3_40();
    lemma_alpha_x_40();
    lemma_alpha_byte_facts();
    reveal(bytes_p_3_41);
    reveal(alpha_pow_3);
    reveal(acc_3_40);
    reveal(acc_3_41);
    reveal(alpha_x_40);
    assert(bits_of_bytes(alpha_pow_3())[40] == bit_of(2u8, 0));
    assert(shift_add_mul(alpha_spec(), alpha_pow_3(), 41) =~= acc_3_41());
}

proof fn lemma_acc_3_42()
    ensures
        shift_add_mul(alpha_spec(), alpha_pow_3(), 42) == acc_3_42(),
{
    lemma_acc_3_41();
    lemma_alpha_x_41();
    lemma_alpha_byte_facts();
    reveal(bytes_p_3_42);
    reveal(alpha_pow_3);
    reveal(acc_3_41);
    reveal(acc_3_42);
    reveal(alpha_x_41);
    assert(bits_of_bytes(alpha_pow_3())[41] == bit_of(2u8, 1));
    assert(shift_add_mul(alpha_spec(), alpha_pow_3(), 42) =~= acc_3_42());
}

proof fn lemma_acc_3_43()
    ensures
        shift_add_mul(alpha_spec(), alpha_pow_3(), 43) == acc_3_43(),
{
    lemma_acc_3_42();
    lemma_alpha_x_42();
    lemma_alpha_byte_facts();
    reveal(bytes_p_3_43);
    reveal(alpha_pow_3);
    reveal(acc_3_42);
    reveal(acc_3_43);
    reveal(alpha_x_42);
    assert(bits_of_bytes(alpha_pow_3())[42] == bit_of(2u8, 2));
    assert(shift_add_mul(alpha_spec(), alpha_pow_3(), 43) =~= acc_3_43());
}

proof fn lemma_acc_3_44()
    ensures
        shift_add_mul(alpha_spec(), alpha_pow_3(), 44) == acc_3_44(),
{
    lemma_acc_3_43();
    lemma_alpha_x_43();
    lemma_alpha_byte_facts();
    reveal(bytes_p_3_44);
    reveal(alpha_pow_3);
    reveal(acc_3_43);
    reveal(acc_3_44);
    reveal(alpha_x_43);
    assert(bits_of_bytes(alpha_pow_3())[43] == bit_of(2u8, 3));
    assert(shift_add_mul(alpha_spec(), alpha_pow_3(), 44) =~= acc_3_44());
}

proof fn lemma_acc_3_45()
    ensures
        shift_add_mul(alpha_spec(), alpha_pow_3(), 45) == acc_3_45(),
{
    lemma_acc_3_44();
    lemma_alpha_x_44();
    lemma_alpha_byte_facts();
    reveal(bytes_p_3_45);
    reveal(alpha_pow_3);
    reveal(acc_3_44);
    reveal(acc_3_45);
    reveal(alpha_x_44);
    assert(bits_of_bytes(alpha_pow_3())[44] == bit_of(2u8, 4));
    assert(shift_add_mul(alpha_spec(), alpha_pow_3(), 45) =~= acc_3_45());
}

proof fn lemma_acc_3_46()
    ensures
        shift_add_mul(alpha_spec(), alpha_pow_3(), 46) == acc_3_46(),
{
    lemma_acc_3_45();
    lemma_alpha_x_45();
    lemma_alpha_byte_facts();
    reveal(bytes_p_3_46);
    reveal(alpha_pow_3);
    reveal(acc_3_45);
    reveal(acc_3_46);
    reveal(alpha_x_45);
    assert(bits_of_bytes(alpha_pow_3())[45] == bit_of(2u8, 5));
    assert(shift_add_mul(alpha_spec(), alpha_pow_3(), 46) =~= acc_3_46());
}

proof fn lemma_acc_3_47()
    ensures
        shift_add_mul(alpha_spec(), alpha_pow_3(), 47) == acc_3_47(),
{
    lemma_acc_3_46();
    lemma_alpha_x_46();
    lemma_alpha_byte_facts();
    reveal(bytes_p_3_47);
    reveal(alpha_pow_3);
    reveal(acc_3_46);
    reveal(acc_3_47);
    reveal(alpha_x_46);
    assert(bits_of_bytes(alpha_pow_3())[46] == bit_of(2u8, 6));
    assert(shift_add_mul(alpha_spec(), alpha_pow_3(), 47) =~= acc_3_47());
}

proof fn lemma_acc_3_48()
    ensures
        shift_add_mul(alpha_spec(), alpha_pow_3(), 48) == acc_3_48(),
{
    lemma_acc_3_47();
    lemma_alpha_x_47();
    lemma_alpha_byte_facts();
    reveal(bytes_p_3_48);
    reveal(alpha_pow_3);
    reveal(acc_3_47);
    reveal(acc_3_48);
    reveal(alpha_x_47);
    assert(bits_of_bytes(alpha_pow_3())[47] == bit_of(2u8, 7));
    assert(shift_add_mul(alpha_spec(), alpha_pow_3(), 48) =~= acc_3_48());
}

proof fn lemma_acc_3_49()
    ensures
        shift_add_mul(alpha_spec(), alpha_pow_3(), 49) == acc_3_49(),
{
    lemma_acc_3_48();
    lemma_alpha_x_48();
    lemma_alpha_byte_facts();
    reveal(bytes_p_3_49);
    reveal(alpha_pow_3);
    reveal(acc_3_48);
    reveal(acc_3_49);
    reveal(alpha_x_48);
    assert(bits_of_bytes(alpha_pow_3())[48] == bit_of(207u8, 0));
    assert(shift_add_mul(alpha_spec(), alpha_pow_3(), 49) =~= acc_3_49());
}

proof fn lemma_acc_3_50()
    ensures
        shift_add_mul(alpha_spec(), alpha_pow_3(), 50) == acc_3_50(),
{
    lemma_acc_3_49();
    lemma_alpha_x_49();
    lemma_alpha_byte_facts();
    reveal(bytes_p_3_50);
    reveal(alpha_pow_3);
    reveal(acc_3_49);
    reveal(acc_3_50);
    reveal(alpha_x_49);
    assert(bits_of_bytes(alpha_pow_3())[49] == bit_of(207u8, 1));
    assert(shift_add_mul(alpha_spec(), alpha_pow_3(), 50) =~= acc_3_50());
}

proof fn lemma_acc_3_51()
    ensures
        shift_add_mul(alpha_spec(), alpha_pow_3(), 51) == acc_3_51(),
{
    lemma_acc_3_50();
    lemma_alpha_x_50();
    lemma_alpha_byte_facts();
    reveal(bytes_p_3_51);
    reveal(alpha_pow_3);
    reveal(acc_3_50);
    reveal(acc_3_51);
    reveal(alpha_x_50);
    assert(bits_of_bytes(alpha_pow_3())[50] == bit_of(207u8, 2));
    assert(shift_add_mul(alpha_spec(), alpha_pow_3(), 51) =~= acc_3_51());
}

proof fn lemma_acc_3_52()
    ensures
        shift_add_mul(alpha_spec(), alpha_pow_3(), 52) == acc_3_52(),
{
    lemma_acc_3_51();
    lemma_alpha_x_51();
    lemma_alpha_byte_facts();
    reveal(bytes_p_3_52);
    reveal(alpha_pow_3);
    reveal(acc_3_51);
    reveal(acc_3_52);
    reveal(alpha_x_51);
    assert(bits_of_bytes(alpha_pow_3())[51] == bit_of(207u8, 3));
    assert(shift_add_mul(alpha_spec(), alpha_pow_3(), 52) =~= acc_3_52());
}

proof fn lemma_acc_3_53()
    ensures
        shift_add_mul(alpha_spec(), alpha_pow_3(), 53) == acc_3_53(),
{
    lemma_acc_3_52();
    lemma_alpha_x_52();
    lemma_alpha_byte_facts();
    reveal(bytes_p_3_53);
    reveal(alpha_pow_3);
    reveal(acc_3_52);
    reveal(acc_3_53);
    reveal(alpha_x_52);
    assert(bits_of_bytes(alpha_pow_3())[52] == bit_of(207u8, 4));
    assert(shift_add_mul(alpha_spec(), alpha_pow_3(), 53) =~= acc_3_53());
}

proof fn lemma_acc_3_54()
    ensures
        shift_add_mul(alpha_spec(), alpha_pow_3(), 54) == acc_3_54(),
{
    lemma_acc_3_53();
    lemma_alpha_x_53();
    lemma_alpha_byte_facts();
    reveal(bytes_p_3_54);
    reveal(alpha_pow_3);
    reveal(acc_3_53);
    reveal(acc_3_54);
    reveal(alpha_x_53);
    assert(bits_of_bytes(alpha_pow_3())[53] == bit_of(207u8, 5));
    assert(shift_add_mul(alpha_spec(), alpha_pow_3(), 54) =~= acc_3_54());
}

proof fn lemma_acc_3_55()
    ensures
        shift_add_mul(alpha_spec(), alpha_pow_3(), 55) == acc_3_55(),
{
    lemma_acc_3_54();
    lemma_alpha_x_54();
    lemma_alpha_byte_facts();
    reveal(bytes_p_3_55);
    reveal(alpha_pow_3);
    reveal(acc_3_54);
    reveal(acc_3_55);
    reveal(alpha_x_54);
    assert(bits_of_bytes(alpha_pow_3())[54] == bit_of(207u8, 6));
    assert(shift_add_mul(alpha_spec(), alpha_pow_3(), 55) =~= acc_3_55());
}

proof fn lemma_acc_3_56()
    ensures
        shift_add_mul(alpha_spec(), alpha_pow_3(), 56) == acc_3_56(),
{
    lemma_acc_3_55();
    lemma_alpha_x_55();
    lemma_alpha_byte_facts();
    reveal(bytes_p_3_56);
    reveal(alpha_pow_3);
    reveal(acc_3_55);
    reveal(acc_3_56);
    reveal(alpha_x_55);
    assert(bits_of_bytes(alpha_pow_3())[55] == bit_of(207u8, 7));
    assert(shift_add_mul(alpha_spec(), alpha_pow_3(), 56) =~= acc_3_56());
}

proof fn lemma_acc_3_57()
    ensures
        shift_add_mul(alpha_spec(), alpha_pow_3(), 57) == acc_3_57(),
{
    lemma_acc_3_56();
    lemma_alpha_x_56();
    lemma_alpha_byte_facts();
    reveal(bytes_p_3_57);
    reveal(alpha_pow_3);
    reveal(acc_3_56);
    reveal(acc_3_57);
    reveal(alpha_x_56);
    assert(bits_of_bytes(alpha_pow_3())[56] == bit_of(191u8, 0));
    assert(shift_add_mul(alpha_spec(), alpha_pow_3(), 57) =~= acc_3_57());
}

proof fn lemma_acc_3_58()
    ensures
        shift_add_mul(alpha_spec(), alpha_pow_3(), 58) == acc_3_58(),
{
    lemma_acc_3_57();
    lemma_alpha_x_57();
    lemma_alpha_byte_facts();
    reveal(bytes_p_3_58);
    reveal(alpha_pow_3);
    reveal(acc_3_57);
    reveal(acc_3_58);
    reveal(alpha_x_57);
    assert(bits_of_bytes(alpha_pow_3())[57] == bit_of(191u8, 1));
    assert(shift_add_mul(alpha_spec(), alpha_pow_3(), 58) =~= acc_3_58());
}

proof fn lemma_acc_3_59()
    ensures
        shift_add_mul(alpha_spec(), alpha_pow_3(), 59) == acc_3_59(),
{
    lemma_acc_3_58();
    lemma_alpha_x_58();
    lemma_alpha_byte_facts();
    reveal(bytes_p_3_59);
    reveal(alpha_pow_3);
    reveal(acc_3_58);
    reveal(acc_3_59);
    reveal(alpha_x_58);
    assert(bits_of_bytes(alpha_pow_3())[58] == bit_of(191u8, 2));
    assert(shift_add_mul(alpha_spec(), alpha_pow_3(), 59) =~= acc_3_59());
}

proof fn lemma_acc_3_60()
    ensures
        shift_add_mul(alpha_spec(), alpha_pow_3(), 60) == acc_3_60(),
{
    lemma_acc_3_59();
    lemma_alpha_x_59();
    lemma_alpha_byte_facts();
    reveal(bytes_p_3_60);
    reveal(alpha_pow_3);
    reveal(acc_3_59);
    reveal(acc_3_60);
    reveal(alpha_x_59);
    assert(bits_of_bytes(alpha_pow_3())[59] == bit_of(191u8, 3));
    assert(shift_add_mul(alpha_spec(), alpha_pow_3(), 60) =~= acc_3_60());
}

proof fn lemma_acc_3_61()
    ensures
        shift_add_mul(alpha_spec(), alpha_pow_3(), 61) == acc_3_61(),
{
    lemma_acc_3_60();
    lemma_alpha_x_60();
    lemma_alpha_byte_facts();
    reveal(bytes_p_3_61);
    reveal(alpha_pow_3);
    reveal(acc_3_60);
    reveal(acc_3_61);
    reveal(alpha_x_60);
    assert(bits_of_bytes(alpha_pow_3())[60] == bit_of(191u8, 4));
    assert(shift_add_mul(alpha_spec(), alpha_pow_3(), 61) =~= acc_3_61());
}

proof fn lemma_acc_3_62()
    ensures
        shift_add_mul(alpha_spec(), alpha_pow_3(), 62) == acc_3_62(),
{
    lemma_acc_3_61();
    lemma_alpha_x_61();
    lemma_alpha_byte_facts();
    reveal(bytes_p_3_62);
    reveal(alpha_pow_3);
    reveal(acc_3_61);
    reveal(acc_3_62);
    reveal(alpha_x_61);
    assert(bits_of_bytes(alpha_pow_3())[61] == bit_of(191u8, 5));
    assert(shift_add_mul(alpha_spec(), alpha_pow_3(), 62) =~= acc_3_62());
}

proof fn lemma_acc_3_63()
    ensures
        shift_add_mul(alpha_spec(), alpha_pow_3(), 63) == acc_3_63(),
{
    lemma_acc_3_62();
    lemma_alpha_x_62();
    lemma_alpha_byte_facts();
    reveal(bytes_p_3_63);
    reveal(alpha_pow_3);
    reveal(acc_3_62);
    reveal(acc_3_63);
    reveal(alpha_x_62);
    assert(bits_of_bytes(alpha_pow_3())[62] == bit_of(191u8, 6));
    assert(shift_add_mul(alpha_spec(), alpha_pow_3(), 63) =~= acc_3_63());
}

proof fn lemma_acc_3_64()
    ensures
        shift_add_mul(alpha_spec(), alpha_pow_3(), 64) == acc_3_64(),
{
    lemma_acc_3_63();
    lemma_alpha_x_63();
    lemma_alpha_byte_facts();
    reveal(bytes_p_3_64);
    reveal(alpha_pow_3);
    reveal(acc_3_63);
    reveal(acc_3_64);
    reveal(alpha_x_63);
    assert(bits_of_bytes(alpha_pow_3())[63] == bit_of(191u8, 7));
    assert(shift_add_mul(alpha_spec(), alpha_pow_3(), 64) =~= acc_3_64());
}

proof fn lemma_acc_3_65()
    ensures
        shift_add_mul(alpha_spec(), alpha_pow_3(), 65) == acc_3_65(),
{
    lemma_acc_3_64();
    lemma_alpha_x_64();
    lemma_alpha_byte_facts();
    reveal(bytes_p_3_65);
    reveal(alpha_pow_3);
    reveal(acc_3_64);
    reveal(acc_3_65);
    reveal(alpha_x_64);
    assert(bits_of_bytes(alpha_pow_3())[64] == bit_of(198u8, 0));
    assert(shift_add_mul(alpha_spec(), alpha_pow_3(), 65) =~= acc_3_65());
}

proof fn lemma_acc_3_66()
    ensures
        shift_add_mul(alpha_spec(), alpha_pow_3(), 66) == acc_3_66(),
{
    lemma_acc_3_65();
    lemma_alpha_x_65();
    lemma_alpha_byte_facts();
    reveal(bytes_p_3_66);
    reveal(alpha_pow_3);
    reveal(acc_3_65);
    reveal(acc_3_66);
    reveal(alpha_x_65);
    assert(bits_of_bytes(alpha_pow_3())[65] == bit_of(198u8, 1));
    assert(shift_add_mul(alpha_spec(), alpha_pow_3(), 66) =~= acc_3_66());
}

proof fn lemma_acc_3_67()
    ensures
        shift_add_mul(alpha_spec(), alpha_pow_3(), 67) == acc_3_67(),
{
    lemma_acc_3_66();
    lemma_alpha_x_66();
    lemma_alpha_byte_facts();
    reveal(bytes_p_3_67);
    reveal(alpha_pow_3);
    reveal(acc_3_66);
    reveal(acc_3_67);
    reveal(alpha_x_66);
    assert(bits_of_bytes(alpha_pow_3())[66] == bit_of(198u8, 2));
    assert(shift_add_mul(alpha_spec(), alpha_pow_3(), 67) =~= acc_3_67());
}

proof fn lemma_acc_3_68()
    ensures
        shift_add_mul(alpha_spec(), alpha_pow_3(), 68) == acc_3_68(),
{
    lemma_acc_3_67();
    lemma_alpha_x_67();
    lemma_alpha_byte_facts();
    reveal(bytes_p_3_68);
    reveal(alpha_pow_3);
    reveal(acc_3_67);
    reveal(acc_3_68);
    reveal(alpha_x_67);
    assert(bits_of_bytes(alpha_pow_3())[67] == bit_of(198u8, 3));
    assert(shift_add_mul(alpha_spec(), alpha_pow_3(), 68) =~= acc_3_68());
}

proof fn lemma_acc_3_69()
    ensures
        shift_add_mul(alpha_spec(), alpha_pow_3(), 69) == acc_3_69(),
{
    lemma_acc_3_68();
    lemma_alpha_x_68();
    lemma_alpha_byte_facts();
    reveal(bytes_p_3_69);
    reveal(alpha_pow_3);
    reveal(acc_3_68);
    reveal(acc_3_69);
    reveal(alpha_x_68);
    assert(bits_of_bytes(alpha_pow_3())[68] == bit_of(198u8, 4));
    assert(shift_add_mul(alpha_spec(), alpha_pow_3(), 69) =~= acc_3_69());
}

proof fn lemma_acc_3_70()
    ensures
        shift_add_mul(alpha_spec(), alpha_pow_3(), 70) == acc_3_70(),
{
    lemma_acc_3_69();
    lemma_alpha_x_69();
    lemma_alpha_byte_facts();
    reveal(bytes_p_3_70);
    reveal(alpha_pow_3);
    reveal(acc_3_69);
    reveal(acc_3_70);
    reveal(alpha_x_69);
    assert(bits_of_bytes(alpha_pow_3())[69] == bit_of(198u8, 5));
    assert(shift_add_mul(alpha_spec(), alpha_pow_3(), 70) =~= acc_3_70());
}

proof fn lemma_acc_3_71()
    ensures
        shift_add_mul(alpha_spec(), alpha_pow_3(), 71) == acc_3_71(),
{
    lemma_acc_3_70();
    lemma_alpha_x_70();
    lemma_alpha_byte_facts();
    reveal(bytes_p_3_71);
    reveal(alpha_pow_3);
    reveal(acc_3_70);
    reveal(acc_3_71);
    reveal(alpha_x_70);
    assert(bits_of_bytes(alpha_pow_3())[70] == bit_of(198u8, 6));
    assert(shift_add_mul(alpha_spec(), alpha_pow_3(), 71) =~= acc_3_71());
}

proof fn lemma_acc_3_72()
    ensures
        shift_add_mul(alpha_spec(), alpha_pow_3(), 72) == acc_3_72(),
{
    lemma_acc_3_71();
    lemma_alpha_x_71();
    lemma_alpha_byte_facts();
    reveal(bytes_p_3_72);
    reveal(alpha_pow_3);
    reveal(acc_3_71);
    reveal(acc_3_72);
    reveal(alpha_x_71);
    assert(bits_of_bytes(alpha_pow_3())[71] == bit_of(198u8, 7));
    assert(shift_add_mul(alpha_spec(), alpha_pow_3(), 72) =~= acc_3_72());
}

proof fn lemma_acc_3_73()
    ensures
        shift_add_mul(alpha_spec(), alpha_pow_3(), 73) == acc_3_73(),
{
    lemma_acc_3_72();
    lemma_alpha_x_72();
    lemma_alpha_byte_facts();
    reveal(bytes_p_3_73);
    reveal(alpha_pow_3);
    reveal(acc_3_72);
    reveal(acc_3_73);
    reveal(alpha_x_72);
    assert(bits_of_bytes(alpha_pow_3())[72] == bit_of(210u8, 0));
    assert(shift_add_mul(alpha_spec(), alpha_pow_3(), 73) =~= acc_3_73());
}

proof fn lemma_acc_3_74()
    ensures
        shift_add_mul(alpha_spec(), alpha_pow_3(), 74) == acc_3_74(),
{
    lemma_acc_3_73();
    lemma_alpha_x_73();
    lemma_alpha_byte_facts();
    reveal(bytes_p_3_74);
    reveal(alpha_pow_3);
    reveal(acc_3_73);
    reveal(acc_3_74);
    reveal(alpha_x_73);
    assert(bits_of_bytes(alpha_pow_3())[73] == bit_of(210u8, 1));
    assert(shift_add_mul(alpha_spec(), alpha_pow_3(), 74) =~= acc_3_74());
}

proof fn lemma_acc_3_75()
    ensures
        shift_add_mul(alpha_spec(), alpha_pow_3(), 75) == acc_3_75(),
{
    lemma_acc_3_74();
    lemma_alpha_x_74();
    lemma_alpha_byte_facts();
    reveal(bytes_p_3_75);
    reveal(alpha_pow_3);
    reveal(acc_3_74);
    reveal(acc_3_75);
    reveal(alpha_x_74);
    assert(bits_of_bytes(alpha_pow_3())[74] == bit_of(210u8, 2));
    assert(shift_add_mul(alpha_spec(), alpha_pow_3(), 75) =~= acc_3_75());
}

proof fn lemma_acc_3_76()
    ensures
        shift_add_mul(alpha_spec(), alpha_pow_3(), 76) == acc_3_76(),
{
    lemma_acc_3_75();
    lemma_alpha_x_75();
    lemma_alpha_byte_facts();
    reveal(bytes_p_3_76);
    reveal(alpha_pow_3);
    reveal(acc_3_75);
    reveal(acc_3_76);
    reveal(alpha_x_75);
    assert(bits_of_bytes(alpha_pow_3())[75] == bit_of(210u8, 3));
    assert(shift_add_mul(alpha_spec(), alpha_pow_3(), 76) =~= acc_3_76());
}

proof fn lemma_acc_3_77()
    ensures
        shift_add_mul(alpha_spec(), alpha_pow_3(), 77) == acc_3_77(),
{
    lemma_acc_3_76();
    lemma_alpha_x_76();
    lemma_alpha_byte_facts();
    reveal(bytes_p_3_77);
    reveal(alpha_pow_3);
    reveal(acc_3_76);
    reveal(acc_3_77);
    reveal(alpha_x_76);
    assert(bits_of_bytes(alpha_pow_3())[76] == bit_of(210u8, 4));
    assert(shift_add_mul(alpha_spec(), alpha_pow_3(), 77) =~= acc_3_77());
}

proof fn lemma_acc_3_78()
    ensures
        shift_add_mul(alpha_spec(), alpha_pow_3(), 78) == acc_3_78(),
{
    lemma_acc_3_77();
    lemma_alpha_x_77();
    lemma_alpha_byte_facts();
    reveal(bytes_p_3_78);
    reveal(alpha_pow_3);
    reveal(acc_3_77);
    reveal(acc_3_78);
    reveal(alpha_x_77);
    assert(bits_of_bytes(alpha_pow_3())[77] == bit_of(210u8, 5));
    assert(shift_add_mul(alpha_spec(), alpha_pow_3(), 78) =~= acc_3_78());
}

proof fn lemma_acc_3_79()
    ensures
        shift_add_mul(alpha_spec(), alpha_pow_3(), 79) == acc_3_79(),
{
    lemma_acc_3_78();
    lemma_alpha_x_78();
    lemma_alpha_byte_facts();
    reveal(bytes_p_3_79);
    reveal(alpha_pow_3);
    reveal(acc_3_78);
    reveal(acc_3_79);
    reveal(alpha_x_78);
    assert(bits_of_bytes(alpha_pow_3())[78] == bit_of(210u8, 6));
    assert(shift_add_mul(alpha_spec(), alpha_pow_3(), 79) =~= acc_3_79());
}

proof fn lemma_acc_3_80()
    ensures
        shift_add_mul(alpha_spec(), alpha_pow_3(), 80) == acc_3_80(),
{
    lemma_acc_3_79();
    lemma_alpha_x_79();
    lemma_alpha_byte_facts();
    reveal(bytes_p_3_80);
    reveal(alpha_pow_3);
    reveal(acc_3_79);
    reveal(acc_3_80);
    reveal(alpha_x_79);
    assert(bits_of_bytes(alpha_pow_3())[79] == bit_of(210u8, 7));
    assert(shift_add_mul(alpha_spec(), alpha_pow_3(), 80) =~= acc_3_80());
}

proof fn lemma_acc_3_81()
    ensures
        shift_add_mul(alpha_spec(), alpha_pow_3(), 81) == acc_3_81(),
{
    lemma_acc_3_80();
    lemma_alpha_x_80();
    lemma_alpha_byte_facts();
    reveal(bytes_p_3_81);
    reveal(alpha_pow_3);
    reveal(acc_3_80);
    reveal(acc_3_81);
    reveal(alpha_x_80);
    assert(bits_of_bytes(alpha_pow_3())[80] == bit_of(81u8, 0));
    assert(shift_add_mul(alpha_spec(), alpha_pow_3(), 81) =~= acc_3_81());
}

proof fn lemma_acc_3_82()
    ensures
        shift_add_mul(alpha_spec(), alpha_pow_3(), 82) == acc_3_82(),
{
    lemma_acc_3_81();
    lemma_alpha_x_81();
    lemma_alpha_byte_facts();
    reveal(bytes_p_3_82);
    reveal(alpha_pow_3);
    reveal(acc_3_81);
    reveal(acc_3_82);
    reveal(alpha_x_81);
    assert(bits_of_bytes(alpha_pow_3())[81] == bit_of(81u8, 1));
    assert(shift_add_mul(alpha_spec(), alpha_pow_3(), 82) =~= acc_3_82());
}

proof fn lemma_acc_3_83()
    ensures
        shift_add_mul(alpha_spec(), alpha_pow_3(), 83) == acc_3_83(),
{
    lemma_acc_3_82();
    lemma_alpha_x_82();
    lemma_alpha_byte_facts();
    reveal(bytes_p_3_83);
    reveal(alpha_pow_3);
    reveal(acc_3_82);
    reveal(acc_3_83);
    reveal(alpha_x_82);
    assert(bits_of_bytes(alpha_pow_3())[82] == bit_of(81u8, 2));
    assert(shift_add_mul(alpha_spec(), alpha_pow_3(), 83) =~= acc_3_83());
}

proof fn lemma_acc_3_84()
    ensures
        shift_add_mul(alpha_spec(), alpha_pow_3(), 84) == acc_3_84(),
{
    lemma_acc_3_83();
    lemma_alpha_x_83();
    lemma_alpha_byte_facts();
    reveal(bytes_p_3_84);
    reveal(alpha_pow_3);
    reveal(acc_3_83);
    reveal(acc_3_84);
    reveal(alpha_x_83);
    assert(bits_of_bytes(alpha_pow_3())[83] == bit_of(81u8, 3));
    assert(shift_add_mul(alpha_spec(), alpha_pow_3(), 84) =~= acc_3_84());
}

proof fn lemma_acc_3_85()
    ensures
        shift_add_mul(alpha_spec(), alpha_pow_3(), 85) == acc_3_85(),
{
    lemma_acc_3_84();
    lemma_alpha_x_84();
    lemma_alpha_byte_facts();
    reveal(bytes_p_3_85);
    reveal(alpha_pow_3);
    reveal(acc_3_84);
    reveal(acc_3_85);
    reveal(alpha_x_84);
    assert(bits_of_bytes(alpha_pow_3())[84] == bit_of(81u8, 4));
    assert(shift_add_mul(alpha_spec(), alpha_pow_3(), 85) =~= acc_3_85());
}

proof fn lemma_acc_3_86()
    ensures
        shift_add_mul(alpha_spec(), alpha_pow_3(), 86) == acc_3_86(),
{
    lemma_acc_3_85();
    lemma_alpha_x_85();
    lemma_alpha_byte_facts();
    reveal(bytes_p_3_86);
    reveal(alpha_pow_3);
    reveal(acc_3_85);
    reveal(acc_3_86);
    reveal(alpha_x_85);
    assert(bits_of_bytes(alpha_pow_3())[85] == bit_of(81u8, 5));
    assert(shift_add_mul(alpha_spec(), alpha_pow_3(), 86) =~= acc_3_86());
}

proof fn lemma_acc_3_87()
    ensures
        shift_add_mul(alpha_spec(), alpha_pow_3(), 87) == acc_3_87(),
{
    lemma_acc_3_86();
    lemma_alpha_x_86();
    lemma_alpha_byte_facts();
    reveal(bytes_p_3_87);
    reveal(alpha_pow_3);
    reveal(acc_3_86);
    reveal(acc_3_87);
    reveal(alpha_x_86);
    assert(bits_of_bytes(alpha_pow_3())[86] == bit_of(81u8, 6));
    assert(shift_add_mul(alpha_spec(), alpha_pow_3(), 87) =~= acc_3_87());
}

proof fn lemma_acc_3_88()
    ensures
        shift_add_mul(alpha_spec(), alpha_pow_3(), 88) == acc_3_88(),
{
    lemma_acc_3_87();
    lemma_alpha_x_87();
    lemma_alpha_byte_facts();
    reveal(bytes_p_3_88);
    reveal(alpha_pow_3);
    reveal(acc_3_87);
    reveal(acc_3_88);
    reveal(alpha_x_87);
    assert(bits_of_bytes(alpha_pow_3())[87] == bit_of(81u8, 7));
    assert(shift_add_mul(alpha_spec(), alpha_pow_3(), 88) =~= acc_3_88());
}

proof fn lemma_acc_3_89()
    ensures
        shift_add_mul(alpha_spec(), alpha_pow_3(), 89) == acc_3_89(),
{
    lemma_acc_3_88();
    lemma_alpha_x_88();
    lemma_alpha_byte_facts();
    reveal(bytes_p_3_89);
    reveal(alpha_pow_3);
    reveal(acc_3_88);
    reveal(acc_3_89);
    reveal(alpha_x_88);
    assert(bits_of_bytes(alpha_pow_3())[88] == bit_of(125u8, 0));
    assert(shift_add_mul(alpha_spec(), alpha_pow_3(), 89) =~= acc_3_89());
}

proof fn lemma_acc_3_90()
    ensures
        shift_add_mul(alpha_spec(), alpha_pow_3(), 90) == acc_3_90(),
{
    lemma_acc_3_89();
    lemma_alpha_x_89();
    lemma_alpha_byte_facts();
    reveal(bytes_p_3_90);
    reveal(alpha_pow_3);
    reveal(acc_3_89);
    reveal(acc_3_90);
    reveal(alpha_x_89);
    assert(bits_of_bytes(alpha_pow_3())[89] == bit_of(125u8, 1));
    assert(shift_add_mul(alpha_spec(), alpha_pow_3(), 90) =~= acc_3_90());
}

proof fn lemma_acc_3_91()
    ensures
        shift_add_mul(alpha_spec(), alpha_pow_3(), 91) == acc_3_91(),
{
    lemma_acc_3_90();
    lemma_alpha_x_90();
    lemma_alpha_byte_facts();
    reveal(bytes_p_3_91);
    reveal(alpha_pow_3);
    reveal(acc_3_90);
    reveal(acc_3_91);
    reveal(alpha_x_90);
    assert(bits_of_bytes(alpha_pow_3())[90] == bit_of(125u8, 2));
    assert(shift_add_mul(alpha_spec(), alpha_pow_3(), 91) =~= acc_3_91());
}

proof fn lemma_acc_3_92()
    ensures
        shift_add_mul(alpha_spec(), alpha_pow_3(), 92) == acc_3_92(),
{
    lemma_acc_3_91();
    lemma_alpha_x_91();
    lemma_alpha_byte_facts();
    reveal(bytes_p_3_92);
    reveal(alpha_pow_3);
    reveal(acc_3_91);
    reveal(acc_3_92);
    reveal(alpha_x_91);
    assert(bits_of_bytes(alpha_pow_3())[91] == bit_of(125u8, 3));
    assert(shift_add_mul(alpha_spec(), alpha_pow_3(), 92) =~= acc_3_92());
}

proof fn lemma_acc_3_93()
    ensures
        shift_add_mul(alpha_spec(), alpha_pow_3(), 93) == acc_3_93(),
{
    lemma_acc_3_92();
    lemma_alpha_x_92();
    lemma_alpha_byte_facts();
    reveal(bytes_p_3_93);
    reveal(alpha_pow_3);
    reveal(acc_3_92);
    reveal(acc_3_93);
    reveal(alpha_x_92);
    assert(bits_of_bytes(alpha_pow_3())[92] == bit_of(125u8, 4));
    assert(shift_add_mul(alpha_spec(), alpha_pow_3(), 93) =~= acc_3_93());
}

proof fn lemma_acc_3_94()
    ensures
        shift_add_mul(alpha_spec(), alpha_pow_3(), 94) == acc_3_94(),
{
    lemma_acc_3_93();
    lemma_alpha_x_93();
    lemma_alpha_byte_facts();
    reveal(bytes_p_3_94);
    reveal(alpha_pow_3);
    reveal(acc_3_93);
    reveal(acc_3_94);
    reveal(alpha_x_93);
    assert(bits_of_bytes(alpha_pow_3())[93] == bit_of(125u8, 5));
    assert(shift_add_mul(alpha_spec(), alpha_pow_3(), 94) =~= acc_3_94());
}

proof fn lemma_acc_3_95()
    ensures
        shift_add_mul(alpha_spec(), alpha_pow_3(), 95) == acc_3_95(),
{
    lemma_acc_3_94();
    lemma_alpha_x_94();
    lemma_alpha_byte_facts();
    reveal(bytes_p_3_95);
    reveal(alpha_pow_3);
    reveal(acc_3_94);
    reveal(acc_3_95);
    reveal(alpha_x_94);
    assert(bits_of_bytes(alpha_pow_3())[94] == bit_of(125u8, 6));
    assert(shift_add_mul(alpha_spec(), alpha_pow_3(), 95) =~= acc_3_95());
}

proof fn lemma_acc_3_96()
    ensures
        shift_add_mul(alpha_spec(), alpha_pow_3(), 96) == acc_3_96(),
{
    lemma_acc_3_95();
    lemma_alpha_x_95();
    lemma_alpha_byte_facts();
    reveal(bytes_p_3_96);
    reveal(alpha_pow_3);
    reveal(acc_3_95);
    reveal(acc_3_96);
    reveal(alpha_x_95);
    assert(bits_of_bytes(alpha_pow_3())[95] == bit_of(125u8, 7));
    assert(shift_add_mul(alpha_spec(), alpha_pow_3(), 96) =~= acc_3_96());
}

proof fn lemma_acc_3_97()
    ensures
        shift_add_mul(alpha_spec(), alpha_pow_3(), 97) == acc_3_97(),
{
    lemma_acc_3_96();
    lemma_alpha_x_96();
    lemma_alpha_byte_facts();
    reveal(bytes_p_3_97);
    reveal(alpha_pow_3);
    reveal(acc_3_96);
    reveal(acc_3_97);
    reveal(alpha_x_96);
    assert(bits_of_bytes(alpha_pow_3())[96] == bit_of(79u8, 0));
    assert(shift_add_mul(alpha_spec(), alpha_pow_3(), 97) =~= acc_3_97());
}

proof fn lemma_acc_3_98()
    ensures
        shift_add_mul(alpha_spec(), alpha_pow_3(), 98) == acc_3_98(),
{
    lemma_acc_3_97();
    lemma_alpha_x_97();
    lemma_alpha_byte_facts();
    reveal(bytes_p_3_98);
    reveal(alpha_pow_3);
    reveal(acc_3_97);
    reveal(acc_3_98);
    reveal(alpha_x_97);
    assert(bits_of_bytes(alpha_pow_3())[97] == bit_of(79u8, 1));
    assert(shift_add_mul(alpha_spec(), alpha_pow_3(), 98) =~= acc_3_98());
}

proof fn lemma_acc_3_99()
    ensures
        shift_add_mul(alpha_spec(), alpha_pow_3(), 99) == acc_3_99(),
{
    lemma_acc_3_98();
    lemma_alpha_x_98();
    lemma_alpha_byte_facts();
    reveal(bytes_p_3_99);
    reveal(alpha_pow_3);
    reveal(acc_3_98);
    reveal(acc_3_99);
    reveal(alpha_x_98);
    assert(bits_of_bytes(alpha_pow_3())[98] == bit_of(79u8, 2));
    assert(shift_add_mul(alpha_spec(), alpha_pow_3(), 99) =~= acc_3_99());
}

proof fn lemma_acc_3_100()
    ensures
        shift_add_mul(alpha_spec(), alpha_pow_3(), 100) == acc_3_100(),
{
    lemma_acc_3_99();
    lemma_alpha_x_99();
    lemma_alpha_byte_facts();
    reveal(bytes_p_3_100);
    reveal(alpha_pow_3);
    reveal(acc_3_99);
    reveal(acc_3_100);
    reveal(alpha_x_99);
    assert(bits_of_bytes(alpha_pow_3())[99] == bit_of(79u8, 3));
    assert(shift_add_mul(alpha_spec(), alpha_pow_3(), 100) =~= acc_3_100());
}

proof fn lemma_acc_3_101()
    ensures
        shift_add_mul(alpha_spec(), alpha_pow_3(), 101) == acc_3_101(),
{
    lemma_acc_3_100();
    lemma_alpha_x_100();
    lemma_alpha_byte_facts();
    reveal(bytes_p_3_101);
    reveal(alpha_pow_3);
    reveal(acc_3_100);
    reveal(acc_3_101);
    reveal(alpha_x_100);
    assert(bits_of_bytes(alpha_pow_3())[100] == bit_of(79u8, 4));
    assert(shift_add_mul(alpha_spec(), alpha_pow_3(), 101) =~= acc_3_101());
}

proof fn lemma_acc_3_102()
    ensures
        shift_add_mul(alpha_spec(), alpha_pow_3(), 102) == acc_3_102(),
{
    lemma_acc_3_101();
    lemma_alpha_x_101();
    lemma_alpha_byte_facts();
    reveal(bytes_p_3_102);
    reveal(alpha_pow_3);
    reveal(acc_3_101);
    reveal(acc_3_102);
    reveal(alpha_x_101);
    assert(bits_of_bytes(alpha_pow_3())[101] == bit_of(79u8, 5));
    assert(shift_add_mul(alpha_spec(), alpha_pow_3(), 102) =~= acc_3_102());
}

proof fn lemma_acc_3_103()
    ensures
        shift_add_mul(alpha_spec(), alpha_pow_3(), 103) == acc_3_103(),
{
    lemma_acc_3_102();
    lemma_alpha_x_102();
    lemma_alpha_byte_facts();
    reveal(bytes_p_3_103);
    reveal(alpha_pow_3);
    reveal(acc_3_102);
    reveal(acc_3_103);
    reveal(alpha_x_102);
    assert(bits_of_bytes(alpha_pow_3())[102] == bit_of(79u8, 6));
    assert(shift_add_mul(alpha_spec(), alpha_pow_3(), 103) =~= acc_3_103());
}

proof fn lemma_acc_3_104()
    ensures
        shift_add_mul(alpha_spec(), alpha_pow_3(), 104) == acc_3_104(),
{
    lemma_acc_3_103();
    lemma_alpha_x_103();
    lemma_alpha_byte_facts();
    reveal(bytes_p_3_104);
    reveal(alpha_pow_3);
    reveal(acc_3_103);
    reveal(acc_3_104);
    reveal(alpha_x_103);
    assert(bits_of_bytes(alpha_pow_3())[103] == bit_of(79u8, 7));
    assert(shift_add_mul(alpha_spec(), alpha_pow_3(), 104) =~= acc_3_104());
}

proof fn lemma_acc_3_105()
    ensures
        shift_add_mul(alpha_spec(), alpha_pow_3(), 105) == acc_3_105(),
{
    lemma_acc_3_104();
    lemma_alpha_x_104();
    lemma_alpha_byte_facts();
    reveal(bytes_p_3_105);
    reveal(alpha_pow_3);
    reveal(acc_3_104);
    reveal(acc_3_105);
    reveal(alpha_x_104);
    assert(bits_of_bytes(alpha_pow_3())[104] == bit_of(96u8, 0));
    assert(shift_add_mul(alpha_spec(), alpha_pow_3(), 105) =~= acc_3_105());
}

proof fn lemma_acc_3_106()
    ensures
        shift_add_mul(alpha_spec(), alpha_pow_3(), 106) == acc_3_106(),
{
    lemma_acc_3_105();
    lemma_alpha_x_105();
    lemma_alpha_byte_facts();
    reveal(bytes_p_3_106);
    reveal(alpha_pow_3);
    reveal(acc_3_105);
    reveal(acc_3_106);
    reveal(alpha_x_105);
    assert(bits_of_bytes(alpha_pow_3())[105] == bit_of(96u8, 1));
    assert(shift_add_mul(alpha_spec(), alpha_pow_3(), 106) =~= acc_3_106());
}

proof fn lemma_acc_3_107()
    ensures
        shift_add_mul(alpha_spec(), alpha_pow_3(), 107) == acc_3_107(),
{
    lemma_acc_3_106();
    lemma_alpha_x_106();
    lemma_alpha_byte_facts();
    reveal(bytes_p_3_107);
    reveal(alpha_pow_3);
    reveal(acc_3_106);
    reveal(acc_3_107);
    reveal(alpha_x_106);
    assert(bits_of_bytes(alpha_pow_3())[106] == bit_of(96u8, 2));
    assert(shift_add_mul(alpha_spec(), alpha_pow_3(), 107) =~= acc_3_107());
}

proof fn lemma_acc_3_108()
    ensures
        shift_add_mul(alpha_spec(), alpha_pow_3(), 108) == acc_3_108(),
{
    lemma_acc_3_107();
    lemma_alpha_x_107();
    lemma_alpha_byte_facts();
    reveal(bytes_p_3_108);
    reveal(alpha_pow_3);
    reveal(acc_3_107);
    reveal(acc_3_108);
    reveal(alpha_x_107);
    assert(bits_of_bytes(alpha_pow_3())[107] == bit_of(96u8, 3));
    assert(shift_add_mul(alpha_spec(), alpha_pow_3(), 108) =~= acc_3_108());
}

proof fn lemma_acc_3_109()
    ensures
        shift_add_mul(alpha_spec(), alpha_pow_3(), 109) == acc_3_109(),
{
    lemma_acc_3_108();
    lemma_alpha_x_108();
    lemma_alpha_byte_facts();
    reveal(bytes_p_3_109);
    reveal(alpha_pow_3);
    reveal(acc_3_108);
    reveal(acc_3_109);
    reveal(alpha_x_108);
    assert(bits_of_bytes(alpha_pow_3())[108] == bit_of(96u8, 4));
    assert(shift_add_mul(alpha_spec(), alpha_pow_3(), 109) =~= acc_3_109());
}

proof fn lemma_acc_3_110()
    ensures
        shift_add_mul(alpha_spec(), alpha_pow_3(), 110) == acc_3_110(),
{
    lemma_acc_3_109();
    lemma_alpha_x_109();
    lemma_alpha_byte_facts();
    reveal(bytes_p_3_110);
    reveal(alpha_pow_3);
    reveal(acc_3_109);
    reveal(acc_3_110);
    reveal(alpha_x_109);
    assert(bits_of_bytes(alpha_pow_3())[109] == bit_of(96u8, 5));
    assert(shift_add_mul(alpha_spec(), alpha_pow_3(), 110) =~= acc_3_110());
}

proof fn lemma_acc_3_111()
    ensures
        shift_add_mul(alpha_spec(), alpha_pow_3(), 111) == acc_3_111(),
{
    lemma_acc_3_110();
    lemma_alpha_x_110();
    lemma_alpha_byte_facts();
    reveal(bytes_p_3_111);
    reveal(alpha_pow_3);
    reveal(acc_3_110);
    reveal(acc_3_111);
    reveal(alpha_x_110);
    assert(bits_of_bytes(alpha_pow_3())[110] == bit_of(96u8, 6));
    assert(shift_add_mul(alpha_spec(), alpha_pow_3(), 111) =~= acc_3_111());
}

proof fn lemma_acc_3_112()
    ensures
        shift_add_mul(alpha_spec(), alpha_pow_3(), 112) == acc_3_112(),
{
    lemma_acc_3_111();
    lemma_alpha_x_111();
    lemma_alpha_byte_facts();
    reveal(bytes_p_3_112);
    reveal(alpha_pow_3);
    reveal(acc_3_111);
    reveal(acc_3_112);
    reveal(alpha_x_111);
    assert(bits_of_bytes(alpha_pow_3())[111] == bit_of(96u8, 7));
    assert(shift_add_mul(alpha_spec(), alpha_pow_3(), 112) =~= acc_3_112());
}

proof fn lemma_acc_3_113()
    ensures
        shift_add_mul(alpha_spec(), alpha_pow_3(), 113) == acc_3_113(),
{
    lemma_acc_3_112();
    lemma_alpha_x_112();
    lemma_alpha_byte_facts();
    reveal(bytes_p_3_113);
    reveal(alpha_pow_3);
    reveal(acc_3_112);
    reveal(acc_3_113);
    reveal(alpha_x_112);
    assert(bits_of_bytes(alpha_pow_3())[112] == bit_of(173u8, 0));
    assert(shift_add_mul(alpha_spec(), alpha_pow_3(), 113) =~= acc_3_113());
}

proof fn lemma_acc_3_114()
    ensures
        shift_add_mul(alpha_spec(), alpha_pow_3(), 114) == acc_3_114(),
{
    lemma_acc_3_113();
    lemma_alpha_x_113();
    lemma_alpha_byte_facts();
    reveal(bytes_p_3_114);
    reveal(alpha_pow_3);
    reveal(acc_3_113);
    reveal(acc_3_114);
    reveal(alpha_x_113);
    assert(bits_of_bytes(alpha_pow_3())[113] == bit_of(173u8, 1));
    assert(shift_add_mul(alpha_spec(), alpha_pow_3(), 114) =~= acc_3_114());
}

proof fn lemma_acc_3_115()
    ensures
        shift_add_mul(alpha_spec(), alpha_pow_3(), 115) == acc_3_115(),
{
    lemma_acc_3_114();
    lemma_alpha_x_114();
    lemma_alpha_byte_facts();
    reveal(bytes_p_3_115);
    reveal(alpha_pow_3);
    reveal(acc_3_114);
    reveal(acc_3_115);
    reveal(alpha_x_114);
    assert(bits_of_bytes(alpha_pow_3())[114] == bit_of(173u8, 2));
    assert(shift_add_mul(alpha_spec(), alpha_pow_3(), 115) =~= acc_3_115());
}

proof fn lemma_acc_3_116()
    ensures
        shift_add_mul(alpha_spec(), alpha_pow_3(), 116) == acc_3_116(),
{
    lemma_acc_3_115();
    lemma_alpha_x_115();
    lemma_alpha_byte_facts();
    reveal(bytes_p_3_116);
    reveal(alpha_pow_3);
    reveal(acc_3_115);
    reveal(acc_3_116);
    reveal(alpha_x_115);
    assert(bits_of_bytes(alpha_pow_3())[115] == bit_of(173u8, 3));
    assert(shift_add_mul(alpha_spec(), alpha_pow_3(), 116) =~= acc_3_116());
}

proof fn lemma_acc_3_117()
    ensures
        shift_add_mul(alpha_spec(), alpha_pow_3(), 117) == acc_3_117(),
{
    lemma_acc_3_116();
    lemma_alpha_x_116();
    lemma_alpha_byte_facts();
    reveal(bytes_p_3_117);
    reveal(alpha_pow_3);
    reveal(acc_3_116);
    reveal(acc_3_117);
    reveal(alpha_x_116);
    assert(bits_of_bytes(alpha_pow_3())[116] == bit_of(173u8, 4));
    assert(shift_add_mul(alpha_spec(), alpha_pow_3(), 117) =~= acc_3_117());
}

proof fn lemma_acc_3_118()
    ensures
        shift_add_mul(alpha_spec(), alpha_pow_3(), 118) == acc_3_118(),
{
    lemma_acc_3_117();
    lemma_alpha_x_117();
    lemma_alpha_byte_facts();
    reveal(bytes_p_3_118);
    reveal(alpha_pow_3);
    reveal(acc_3_117);
    reveal(acc_3_118);
    reveal(alpha_x_117);
    assert(bits_of_bytes(alpha_pow_3())[117] == bit_of(173u8, 5));
    assert(shift_add_mul(alpha_spec(), alpha_pow_3(), 118) =~= acc_3_118());
}

proof fn lemma_acc_3_119()
    ensures
        shift_add_mul(alpha_spec(), alpha_pow_3(), 119) == acc_3_119(),
{
    lemma_acc_3_118();
    lemma_alpha_x_118();
    lemma_alpha_byte_facts();
    reveal(bytes_p_3_119);
    reveal(alpha_pow_3);
    reveal(acc_3_118);
    reveal(acc_3_119);
    reveal(alpha_x_118);
    assert(bits_of_bytes(alpha_pow_3())[118] == bit_of(173u8, 6));
    assert(shift_add_mul(alpha_spec(), alpha_pow_3(), 119) =~= acc_3_119());
}

proof fn lemma_acc_3_120()
    ensures
        shift_add_mul(alpha_spec(), alpha_pow_3(), 120) == acc_3_120(),
{
    lemma_acc_3_119();
    lemma_alpha_x_119();
    lemma_alpha_byte_facts();
    reveal(bytes_p_3_120);
    reveal(alpha_pow_3);
    reveal(acc_3_119);
    reveal(acc_3_120);
    reveal(alpha_x_119);
    assert(bits_of_bytes(alpha_pow_3())[119] == bit_of(173u8, 7));
    assert(shift_add_mul(alpha_spec(), alpha_pow_3(), 120) =~= acc_3_120());
}

proof fn lemma_acc_3_121()
    ensures
        shift_add_mul(alpha_spec(), alpha_pow_3(), 121) == acc_3_121(),
{
    lemma_acc_3_120();
    lemma_alpha_x_120();
    lemma_alpha_byte_facts();
    reveal(bytes_p_3_121);
    reveal(alpha_pow_3);
    reveal(acc_3_120);
    reveal(acc_3_121);
    reveal(alpha_x_120);
    assert(bits_of_bytes(alpha_pow_3())[120] == bit_of(53u8, 0));
    assert(shift_add_mul(alpha_spec(), alpha_pow_3(), 121) =~= acc_3_121());
}

proof fn lemma_acc_3_122()
    ensures
        shift_add_mul(alpha_spec(), alpha_pow_3(), 122) == acc_3_122(),
{
    lemma_acc_3_121();
    lemma_alpha_x_121();
    lemma_alpha_byte_facts();
    reveal(bytes_p_3_122);
    reveal(alpha_pow_3);
    reveal(acc_3_121);
    reveal(acc_3_122);
    reveal(alpha_x_121);
    assert(bits_of_bytes(alpha_pow_3())[121] == bit_of(53u8, 1));
    assert(shift_add_mul(alpha_spec(), alpha_pow_3(), 122) =~= acc_3_122());
}

proof fn lemma_acc_3_123()
    ensures
        shift_add_mul(alpha_spec(), alpha_pow_3(), 123) == acc_3_123(),
{
    lemma_acc_3_122();
    lemma_alpha_x_122();
    lemma_alpha_byte_facts();
    reveal(bytes_p_3_123);
    reveal(alpha_pow_3);
    reveal(acc_3_122);
    reveal(acc_3_123);
    reveal(alpha_x_122);
    assert(bits_of_bytes(alpha_pow_3())[122] == bit_of(53u8, 2));
    assert(shift_add_mul(alpha_spec(), alpha_pow_3(), 123) =~= acc_3_123());
}

proof fn lemma_acc_3_124()
    ensures
        shift_add_mul(alpha_spec(), alpha_pow_3(), 124) == acc_3_124(),
{
    lemma_acc_3_123();
    lemma_alpha_x_123();
    lemma_alpha_byte_facts();
    reveal(bytes_p_3_124);
    reveal(alpha_pow_3);
    reveal(acc_3_123);
    reveal(acc_3_124);
    reveal(alpha_x_123);
    assert(bits_of_bytes(alpha_pow_3())[123] == bit_of(53u8, 3));
    assert(shift_add_mul(alpha_spec(), alpha_pow_3(), 124) =~= acc_3_124());
}

proof fn lemma_acc_3_125()
    ensures
        shift_add_mul(alpha_spec(), alpha_pow_3(), 125) == acc_3_125(),
{
    lemma_acc_3_124();
    lemma_alpha_x_124();
    lemma_alpha_byte_facts();
    reveal(bytes_p_3_125);
    reveal(alpha_pow_3);
    reveal(acc_3_124);
    reveal(acc_3_125);
    reveal(alpha_x_124);
    assert(bits_of_bytes(alpha_pow_3())[124] == bit_of(53u8, 4));
    assert(shift_add_mul(alpha_spec(), alpha_pow_3(), 125) =~= acc_3_125());
}

proof fn lemma_acc_3_126()
    ensures
        shift_add_mul(alpha_spec(), alpha_pow_3(), 126) == acc_3_126(),
{
    lemma_acc_3_125();
    lemma_alpha_x_125();
    lemma_alpha_byte_facts();
    reveal(bytes_p_3_126);
    reveal(alpha_pow_3);
    reveal(acc_3_125);
    reveal(acc_3_126);
    reveal(alpha_x_125);
    assert(bits_of_bytes(alpha_pow_3())[125] == bit_of(53u8, 5));
    assert(shift_add_mul(alpha_spec(), alpha_pow_3(), 126) =~= acc_3_126());
}

proof fn lemma_acc_3_127()
    ensures
        shift_add_mul(alpha_spec(), alpha_pow_3(), 127) == acc_3_127(),
{
    lemma_acc_3_126();
    lemma_alpha_x_126();
    lemma_alpha_byte_facts();
    reveal(bytes_p_3_127);
    reveal(alpha_pow_3);
    reveal(acc_3_126);
    reveal(acc_3_127);
    reveal(alpha_x_126);
    assert(bits_of_bytes(alpha_pow_3())[126] == bit_of(53u8, 6));
    assert(shift_add_mul(alpha_spec(), alpha_pow_3(), 127) =~= acc_3_127());
}

proof fn lemma_acc_3_128()
    ensures
        shift_add_mul(alpha_spec(), alpha_pow_3(), 128) == acc_3_128(),
{
    lemma_acc_3_127();
    lemma_alpha_x_127();
    lemma_alpha_byte_facts();
    reveal(bytes_p_3_128);
    reveal(alpha_pow_3);
    reveal(acc_3_127);
    reveal(acc_3_128);
    reveal(alpha_x_127);
    assert(bits_of_bytes(alpha_pow_3())[127] == bit_of(53u8, 7));
    assert(shift_add_mul(alpha_spec(), alpha_pow_3(), 128) =~= acc_3_128());
}

#[verifier::opaque]
spec fn acc_4_0() -> Seq<u8> {
    seq![0u8, 0u8, 0u8, 0u8, 0u8, 0u8, 0u8, 0u8, 0u8, 0u8, 0u8, 0u8, 0u8, 0u8, 0u8, 0u8]
}

#[verifier::opaque]
spec fn acc_4_1() -> Seq<u8> {
    seq![13u8, 206u8, 96u8, 85u8, 172u8, 232u8, 63u8, 161u8, 28u8, 154u8, 151u8, 169u8, 85u8, 133u8, 61u8, 5u8]
}

#[verifier::opaque]
spec fn acc_4_2() -> Seq<u8> {
    seq![13u8, 206u8, 96u8, 85u8, 172u8, 232u8, 63u8, 161u8, 28u8, 154u8, 151u8, 169u8, 85u8, 133u8, 61u8, 5u8]
}

#[verifier::opaque]
spec fn acc_4_3() -> Seq<u8> {
    seq![13u8, 206u8, 96u8, 85u8, 172u8, 232u8, 63u8, 161u8, 28u8, 154u8, 151u8, 169u8, 85u8, 133u8, 61u8, 5u8]
}

#[verifier::opaque]
spec fn acc_4_4() -> Seq<u8> {
    seq![101u8, 190u8, 102u8, 254u8, 206u8, 173u8, 192u8, 168u8, 249u8, 74u8, 43u8, 229u8, 248u8, 175u8, 209u8, 44u8]
}

#[verifier::opaque]
spec fn acc_4_5() -> Seq<u8> {
    seq![101u8, 190u8, 102u8, 254u8, 206u8, 173u8, 192u8, 168u8, 249u8, 74u8, 43u8, 229u8, 248u8, 175u8, 209u8, 44u8]
}

#[verifier::opaque]
spec fn acc_4_6() -> Seq<u8> {
    seq![101u8, 190u8, 102u8, 254u8, 206u8, 173u8, 192u8, 168u8, 249u8, 74u8, 43u8, 229u8, 248u8, 175u8, 209u8, 44u8]
}

#[verifier::opaque]
spec fn acc_4_7() -> Seq<u8> {
    seq![162u8, 61u8, 85u8, 166u8, 219u8, 134u8, 58u8, 231u8, 209u8, 205u8, 205u8, 128u8, 146u8, 250u8, 176u8, 99u8]
}

#[verifier::opaque]
spec fn acc_4_8() -> Seq<u8> {
    seq![162u8, 61u8, 85u8, 166u8, 219u8, 134u8, 58u8, 231u8, 209u8, 205u8, 205u8, 128u8, 146u8, 250u8, 176u8, 99u8]
}

#[verifier::opaque]
spec fn acc_4_9() -> Seq<u8> {
    seq![162u8, 61u8, 85u8, 166u8, 219u8, 134u8, 58u8, 231u8, 209u8, 205u8, 205u8, 128u8, 146u8, 250u8, 176u8, 99u8]
}

#[verifier::opaque]
spec fn acc_4_10() -> Seq<u8> {
    seq![162u8, 61u8, 85u8, 166u8, 219u8, 134u8, 58u8, 231u8, 209u8, 205u8, 205u8, 128u8, 146u8, 250u8, 176u8, 99u8]
}

#[verifier::opaque]
spec fn acc_4_11() -> Seq<u8> {
    seq![162u8, 61u8, 85u8, 166u8, 219u8, 134u8, 58u8, 231u8, 209u8, 205u8, 205u8, 128u8, 146u8, 250u8, 176u8, 99u8]
}

#[verifier::opaque]
spec fn acc_4_12() -> Seq<u8> {
    seq![253u8, 65u8, 37u8, 160u8, 112u8, 228u8, 127u8, 24u8, 216u8, 40u8, 29u8, 60u8, 222u8, 87u8, 154u8, 143u8]
}

#[verifier::opaque]
spec fn acc_4_13() -> Seq<u8> {
    seq![196u8, 185u8, 197u8, 172u8, 38u8, 33u8, 245u8, 230u8, 203u8, 226u8, 188u8, 69u8, 71u8, 13u8, 207u8, 87u8]
}

#[verifier::opaque]
spec fn acc_4_14() -> Seq<u8> {
    seq![196u8, 185u8, 197u8, 172u8, 38u8, 33u8, 245u8, 230u8, 203u8, 226u8, 188u8, 69u8, 71u8, 13u8, 207u8, 87u8]
}

#[verifier::opaque]
spec fn acc_4_15() -> Seq<u8> {
    seq![196u8, 185u8, 197u8, 172u8, 38u8, 33u8, 245u8, 230u8, 203u8, 226u8, 188u8, 69u8, 71u8, 13u8, 207u8, 87u8]
}

#[verifier::opaque]
spec fn acc_4_16() -> Seq<u8> {
    seq![30u8, 123u8, 194u8, 203u8, 150u8, 11u8, 163u8, 18u8, 84u8, 178u8, 178u8, 136u8, 140u8, 217u8, 101u8, 149u8]
}

#[verifier::opaque]
spec fn acc_4_17() -> Seq<u8> {
    seq![30u8, 123u8, 194u8, 203u8, 150u8, 11u8, 163u8, 18u8, 84u8, 178u8, 178u8, 136u8, 140u8, 217u8, 101u8, 149u8]
}

#[verifier::opaque]
spec fn acc_4_18() -> Seq<u8> {
    seq![255u8, 113u8, 221u8, 87u8, 87u8, 161u8, 251u8, 195u8, 43u8, 240u8, 139u8, 188u8, 163u8, 138u8, 206u8, 159u8]
}

#[verifier::opaque]
spec fn acc_4_19() -> Seq<u8> {
    seq![61u8, 100u8, 227u8, 111u8, 212u8, 244u8, 74u8, 97u8, 212u8, 116u8, 249u8, 212u8, 253u8, 44u8, 152u8, 138u8]
}

#[verifier::opaque]
spec fn acc_4_20() -> Seq<u8> {
    seq![185u8, 79u8, 159u8, 31u8, 210u8, 95u8, 40u8, 36u8, 43u8, 125u8, 28u8, 4u8, 65u8, 96u8, 53u8, 160u8]
}

#[verifier::opaque]
spec fn acc_4_21() -> Seq<u8> {
    seq![185u8, 79u8, 159u8, 31u8, 210u8, 95u8, 40u8, 36u8, 43u8, 125u8, 28u8, 4u8, 65u8, 96u8, 53u8, 160u8]
}

#[verifier::opaque]
spec fn acc_4_22() -> Seq<u8> {
    seq![169u8, 225u8, 111u8, 222u8, 203u8, 243u8, 162u8, 49u8, 214u8, 90u8, 136u8, 71u8, 178u8, 82u8, 128u8, 10u8]
}

#[verifier::opaque]
spec fn acc_4_23() -> Seq<u8> {
    seq![169u8, 225u8, 111u8, 222u8, 203u8, 243u8, 162u8, 49u8, 214u8, 90u8, 136u8, 71u8, 178u8, 82u8, 128u8, 10u8]
}

#[verifier::opaque]
spec fn acc_4_24() -> Seq<u8> {
    seq![169u8, 225u8, 111u8, 222u8, 203u8, 243u8, 162u8, 49u8, 214u8, 90u8, 136u8, 71u8, 178u8, 82u8, 128u8, 10u8]
}

#[verifier::opaque]
spec fn acc_4_25() -> Seq<u8> {
    seq![169u8, 225u8, 111u8, 222u8, 203u8, 243u8, 162u8, 49u8, 214u8, 90u8, 136u8, 71u8, 178u8, 82u8, 128u8, 10u8]
}

#[verifier::opaque]
spec fn acc_4_26() -> Seq<u8> {
    seq![169u8, 225u8, 111u8, 222u8, 203u8, 243u8, 162u8, 49u8, 214u8, 90u8, 136u8, 71u8, 178u8, 82u8, 128u8, 10u8]
}

#[verifier::opaque]
spec fn acc_4_27() -> Seq<u8> {
    seq![66u8, 41u8, 122u8, 224u8, 243u8, 112u8, 247u8, 128u8, 116u8, 165u8, 12u8, 53u8, 218u8, 12u8, 38u8, 92u8]
}

#[verifier::opaque]
spec fn acc_4_28() -> Seq<u8> {
    seq![148u8, 184u8, 81u8, 156u8, 131u8, 118u8, 92u8, 226u8, 49u8, 90u8, 5u8, 208u8, 10u8, 176u8, 106u8, 241u8]
}

#[verifier::opaque]
spec fn acc_4_29() -> Seq<u8> {
    seq![191u8, 155u8, 6u8, 100u8, 99u8, 122u8, 10u8, 39u8, 187u8, 164u8, 22u8, 26u8, 171u8, 201u8, 243u8, 171u8]
}

#[verifier::opaque]
spec fn acc_4_30() -> Seq<u8> {
    seq![233u8, 221u8, 168u8, 148u8, 162u8, 99u8, 166u8, 173u8, 174u8, 89u8, 49u8, 142u8, 232u8, 58u8, 193u8, 30u8]
}

#[verifier::opaque]
spec fn acc_4_31() -> Seq<u8> {
    seq![233u8, 221u8, 168u8, 148u8, 162u8, 99u8, 166u8, 173u8, 174u8, 89u8, 49u8, 142u8, 232u8, 58u8, 193u8, 30u8]
}

#[verifier::opaque]
spec fn acc_4_32() -> Seq<u8> {
    seq![233u8, 221u8, 168u8, 148u8, 162u8, 99u8, 166u8, 173u8, 174u8, 89u8, 49u8, 142u8, 232u8, 58u8, 193u8, 30u8]
}

#[verifier::opaque]
spec fn acc_4_33() -> Seq<u8> {
    seq![233u8, 221u8, 168u8, 148u8, 162u8, 99u8, 166u8, 173u8, 174u8, 89u8, 49u8, 142u8, 232u8, 58u8, 193u8, 30u8]
}

#[verifier::opaque]
spec fn acc_4_34() -> Seq<u8> {
    seq![233u8, 221u8, 168u8, 148u8, 162u8, 99u8, 166u8, 173u8, 174u8, 89u8, 49u8, 142u8, 232u8, 58u8, 193u8, 30u8]
}

#[verifier::opaque]
spec fn acc_4_35() -> Seq<u8> {
    seq![233u8, 221u8, 168u8, 148u8, 162u8, 99u8, 166u8, 173u8, 174u8, 89u8, 49u8, 142u8, 232u8, 58u8, 193u8, 30u8]
}

#[verifier::opaque]
spec fn acc_4_36() -> Seq<u8> {
    seq![42u8, 94u8, 57u8, 191u8, 222u8, 19u8, 160u8, 6u8, 204u8, 28u8, 206u8, 135u8, 13u8, 234u8, 125u8, 82u8]
}

#[verifier::opaque]
spec fn acc_4_37() -> Seq<u8> {
    seq![42u8, 94u8, 57u8, 191u8, 222u8, 19u8, 160u8, 6u8, 204u8, 28u8, 206u8, 135u8, 13u8, 234u8, 125u8, 82u8]
}

#[verifier::opaque]
spec fn acc_4_38() -> Seq<u8> {
    seq![42u8, 94u8, 57u8, 191u8, 222u8, 19u8, 160u8, 6u8, 204u8, 28u8, 206u8, 135u8, 13u8, 234u8, 125u8, 82u8]
}

#[verifier::opaque]
spec fn acc_4_39() -> Seq<u8> {
    seq![60u8, 65u8, 181u8, 227u8, 63u8, 144u8, 147u8, 94u8, 217u8, 55u8, 52u8, 200u8, 37u8, 109u8, 155u8, 55u8]
}

#[verifier::opaque]
spec fn acc_4_40() -> Seq<u8> {
    seq![60u8, 65u8, 181u8, 227u8, 63u8, 144u8, 147u8, 94u8, 217u8, 55u8, 52u8, 200u8, 37u8, 109u8, 155u8, 55u8]
}

#[verifier::opaque]
spec fn acc_4_41() -> Seq<u8> {
    seq![60u8, 65u8, 181u8, 227u8, 63u8, 144u8, 147u8, 94u8, 217u8, 55u8, 52u8, 200u8, 37u8, 109u8, 155u8, 55u8]
}

#[verifier::opaque]
spec fn acc_4_42() -> Seq<u8> {
    seq![60u8, 65u8, 181u8, 227u8, 63u8, 144u8, 147u8, 94u8, 217u8, 55u8, 52u8, 200u8, 37u8, 109u8, 155u8, 55u8]
}

#[verifier::opaque]
spec fn acc_4_43() -> Seq<u8> {
    seq![60u8, 65u8, 181u8, 227u8, 63u8, 144u8, 147u8, 94u8, 217u8, 55u8, 52u8, 200u8, 37u8, 109u8, 155u8, 55u8]
}

#[verifier::opaque]
spec fn acc_4_44() -> Seq<u8> {
    seq![60u8, 65u8, 181u8, 227u8, 63u8, 144u8, 147u8, 94u8, 217u8, 55u8, 52u8, 200u8, 37u8, 109u8, 155u8, 55u8]
}

#[verifier::opaque]
spec fn acc_4_45() -> Seq<u8> {
    seq![115u8, 136u8, 178u8, 192u8, 104u8, 104u8, 115u8, 82u8, 143u8, 242u8, 190u8, 54u8, 54u8, 167u8, 58u8, 78u8]
}

#[verifier::opaque]
spec fn acc_4_46() -> Seq<u8> {
    seq![237u8, 26u8, 189u8, 134u8, 198u8, 152u8, 178u8, 75u8, 35u8, 120u8, 171u8, 203u8, 17u8, 51u8, 121u8, 189u8]
}

#[verifier::opaque]
spec fn acc_4_47() -> Seq<u8> {
    seq![237u8, 26u8, 189u8, 134u8, 198u8, 152u8, 178u8, 75u8, 35u8, 120u8, 171u8, 203u8, 17u8, 51u8, 121u8, 189u8]
}

#[verifier::opaque]
spec fn acc_4_48() -> Seq<u8> {
    seq![237u8, 26u8, 189u8, 134u8, 198u8, 152u8, 178u8, 75u8, 35u8, 120u8, 171u8, 203u8, 17u8, 51u8, 121u8, 189u8]
}

#[verifier::opaque]
spec fn acc_4_49() -> Seq<u8> {
    seq![136u8, 141u8, 193u8, 182u8, 180u8, 29u8, 189u8, 133u8, 67u8, 45u8, 7u8, 35u8, 46u8, 146u8, 101u8, 39u8]
}

#[verifier::opaque]
spec fn acc_4_50() -> Seq<u8> {
    seq![197u8, 163u8, 56u8, 214u8, 80u8, 23u8, 162u8, 25u8, 130u8, 135u8, 95u8, 242u8, 81u8, 208u8, 92u8, 19u8]
}

#[verifier::opaque]
spec fn acc_4_51() -> Seq<u8> {
    seq![197u8, 163u8, 56u8, 214u8, 80u8, 23u8, 162u8, 25u8, 130u8, 135u8, 95u8, 242u8, 81u8, 208u8, 92u8, 19u8]
}

#[verifier::opaque]
spec fn acc_4_52() -> Seq<u8> {
    seq![197u8, 163u8, 56u8, 214u8, 80u8, 23u8, 162u8, 25u8, 130u8, 135u8, 95u8, 242u8, 81u8, 208u8, 92u8, 19u8]
}

#[verifier::opaque]
spec fn acc_4_53() -> Seq<u8> {
    seq![197u8, 163u8, 56u8, 214u8, 80u8, 23u8, 162u8, 25u8, 130u8, 135u8, 95u8, 242u8, 81u8, 208u8, 92u8, 19u8]
}

#[verifier::opaque]
spec fn acc_4_54() -> Seq<u8> {
    seq![197u8, 163u8, 56u8, 214u8, 80u8, 23u8, 162u8, 25u8, 130u8, 135u8, 95u8, 242u8, 81u8, 208u8, 92u8, 19u8]
}

#[verifier::opaque]
spec fn acc_4_55() -> Seq<u8> {
    seq![197u8, 163u8, 56u8, 214u8, 80u8, 23u8, 162u8, 25u8, 130u8, 135u8, 95u8, 242u8, 81u8, 208u8, 92u8, 19u8]
}

#[verifier::opaque]
spec fn acc_4_56() -> Seq<u8> {
    seq![38u8, 54u8, 115u8, 232u8, 72u8, 174u8, 96u8, 30u8, 229u8, 55u8, 117u8, 164u8, 165u8, 79u8, 12u8, 29u8]
}

#[verifier::opaque]
spec fn acc_4_57() -> Seq<u8> {
    seq![224u8, 29u8, 228u8, 148u8, 120u8, 220u8, 229u8, 17u8, 43u8, 87u8, 32u8, 8u8, 77u8, 112u8, 173u8, 1u8]
}

#[verifier::opaque]
spec fn acc_4_58() -> Seq<u8> {
    seq![108u8, 74u8, 202u8, 109u8, 24u8, 56u8, 239u8, 14u8, 183u8, 150u8, 138u8, 80u8, 156u8, 15u8, 239u8, 56u8]
}

#[verifier::opaque]
spec fn acc_4_59() -> Seq<u8> {
    seq![108u8, 74u8, 202u8, 109u8, 24u8, 56u8, 239u8, 14u8, 183u8, 150u8, 138u8, 80u8, 156u8, 15u8, 239u8, 56u8]
}

#[verifier::opaque]
spec fn acc_4_60() -> Seq<u8> {
    seq![92u8, 20u8, 115u8, 137u8, 155u8, 169u8, 196u8, 114u8, 199u8, 144u8, 33u8, 50u8, 217u8, 240u8, 230u8, 221u8]
}

#[verifier::opaque]
spec fn acc_4_61() -> Seq<u8> {
    seq![92u8, 20u8, 115u8, 137u8, 155u8, 169u8, 196u8, 114u8, 199u8, 144u8, 33u8, 50u8, 217u8, 240u8, 230u8, 221u8]
}

#[verifier::opaque]
spec fn acc_4_62() -> Seq<u8> {
    seq![21u8, 109u8, 150u8, 27u8, 148u8, 239u8, 106u8, 130u8, 6u8, 137u8, 141u8, 184u8, 204u8, 13u8, 193u8, 73u8]
}

#[verifier::opaque]
spec fn acc_4_63() -> Seq<u8> {
    seq![0u8, 159u8, 92u8, 62u8, 139u8, 99u8, 54u8, 99u8, 133u8, 186u8, 213u8, 173u8, 231u8, 247u8, 142u8, 97u8]
}

#[verifier::opaque]
spec fn acc_4_64() -> Seq<u8> {
    seq![0u8, 159u8, 92u8, 62u8, 139u8, 99u8, 54u8, 99u8, 133u8, 186u8, 213u8, 173u8, 231u8, 247u8, 142u8, 97u8]
}

#[verifier::opaque]
spec fn acc_4_65() -> Seq<u8> {
    seq![0u8, 159u8, 92u8, 62u8, 139u8, 99u8, 54u8, 99u8, 133u8, 186u8, 213u8, 173u8, 231u8, 247u8, 142u8, 97u8]
}

#[verifier::opaque]
spec fn acc_4_66() -> Seq<u8> {
    seq![47u8, 15u8, 11u8, 16u8, 114u8, 3u8, 210u8, 105u8, 154u8, 38u8, 20u8, 7u8, 191u8, 38u8, 241u8, 35u8]
}

#[verifier::opaque]
spec fn acc_4_67() -> Seq<u8> {
    seq![113u8, 47u8, 164u8, 76u8, 128u8, 194u8, 26u8, 124u8, 164u8, 30u8, 151u8, 82u8, 14u8, 132u8, 14u8, 167u8]
}

#[verifier::opaque]
spec fn acc_4_68() -> Seq<u8> {
    seq![74u8, 111u8, 250u8, 245u8, 100u8, 65u8, 139u8, 87u8, 216u8, 110u8, 145u8, 249u8, 108u8, 193u8, 241u8, 174u8]
}

#[verifier::opaque]
spec fn acc_4_69() -> Seq<u8> {
    seq![60u8, 239u8, 70u8, 135u8, 173u8, 70u8, 168u8, 0u8, 32u8, 142u8, 157u8, 175u8, 169u8, 75u8, 15u8, 189u8]
}

#[verifier::opaque]
spec fn acc_4_70() -> Seq<u8> {
    seq![208u8, 239u8, 63u8, 98u8, 63u8, 73u8, 238u8, 174u8, 208u8, 79u8, 132u8, 3u8, 35u8, 94u8, 242u8, 154u8]
}

#[verifier::opaque]
spec fn acc_4_71() -> Seq<u8> {
    seq![8u8, 238u8, 205u8, 168u8, 26u8, 86u8, 98u8, 242u8, 49u8, 204u8, 183u8, 91u8, 54u8, 117u8, 8u8, 213u8]
}

#[verifier::opaque]
spec fn acc_4_72() -> Seq<u8> {
    seq![184u8, 237u8, 41u8, 61u8, 81u8, 104u8, 122u8, 75u8, 243u8, 203u8, 208u8, 235u8, 28u8, 35u8, 252u8, 74u8]
}

#[verifier::opaque]
spec fn acc_4_73() -> Seq<u8> {
    seq![184u8, 237u8, 41u8, 61u8, 81u8, 104u8, 122u8, 75u8, 243u8, 203u8, 208u8, 235u8, 28u8, 35u8, 252u8, 74u8]
}

#[verifier::opaque]
spec fn acc_4_74() -> Seq<u8> {
    seq![118u8, 226u8, 185u8, 106u8, 127u8, 145u8, 26u8, 175u8, 249u8, 212u8, 76u8, 42u8, 182u8, 123u8, 45u8, 53u8]
}

#[verifier::opaque]
spec fn acc_4_75() -> Seq<u8> {
    seq![118u8, 226u8, 185u8, 106u8, 127u8, 145u8, 26u8, 175u8, 249u8, 212u8, 76u8, 42u8, 182u8, 123u8, 45u8, 53u8]
}

#[verifier::opaque]
spec fn acc_4_76() -> Seq<u8> {
    seq![118u8, 226u8, 185u8, 106u8, 127u8, 145u8, 26u8, 175u8, 249u8, 212u8, 76u8, 42u8, 182u8, 123u8, 45u8, 53u8]
}

#[verifier::opaque]
spec fn acc_4_77() -> Seq<u8> {
    seq![118u8, 226u8, 185u8, 106u8, 127u8, 145u8, 26u8, 175u8, 249u8, 212u8, 76u8, 42u8, 182u8, 123u8, 45u8, 53u8]
}

#[verifier::opaque]
spec fn acc_4_78() -> Seq<u8> {
    seq![3u8, 29u8, 185u8, 19u8, 154u8, 3u8, 21u8, 233u8, 87u8, 36u8, 141u8, 51u8, 26u8, 241u8, 56u8, 200u8]
}

#[verifier::opaque]
spec fn acc_4_79() -> Seq<u8> {
    seq![3u8, 29u8, 185u8, 19u8, 154u8, 3u8, 21u8, 233u8, 87u8, 36u8, 141u8, 51u8, 26u8, 241u8, 56u8, 200u8]
}

#[verifier::opaque]
spec fn acc_4_80() -> Seq<u8> {
    seq![3u8, 29u8, 185u8, 19u8, 154u8, 3u8, 21u8, 233u8, 87u8, 36u8, 141u8, 51u8, 26u8, 241u8, 56u8, 200u8]
}

#[verifier::opaque]
spec fn acc_4_81() -> Seq<u8> {
    seq![3u8, 29u8, 185u8, 19u8, 154u8, 3u8, 21u8, 233u8, 87u8, 36u8, 141u8, 51u8, 26u8, 241u8, 56u8, 200u8]
}

#[verifier::opaque]
spec fn acc_4_82() -> Seq<u8> {
    seq![254u8, 237u8, 182u8, 131u8, 205u8, 45u8, 236u8, 137u8, 179u8, 46u8, 146u8, 175u8, 219u8, 91u8, 96u8, 25u8]
}

#[verifier::opaque]
spec fn acc_4_83() -> Seq<u8> {
    seq![254u8, 237u8, 182u8, 131u8, 205u8, 45u8, 236u8, 137u8, 179u8, 46u8, 146u8, 175u8, 219u8, 91u8, 96u8, 25u8]
}

#[verifier::opaque]
spec fn acc_4_84() -> Seq<u8> {
    seq![254u8, 237u8, 182u8, 131u8, 205u8, 45u8, 236u8, 137u8, 179u8, 46u8, 146u8, 175u8, 219u8, 91u8, 96u8, 25u8]
}

#[verifier::opaque]
spec fn acc_4_85() -> Seq<u8> {
    seq![254u8, 237u8, 182u8, 131u8, 205u8, 45u8, 236u8, 137u8, 179u8, 46u8, 146u8, 175u8, 219u8, 91u8, 96u8, 25u8]
}

#[verifier::opaque]
spec fn acc_4_86() -> Seq<u8> {
    seq![141u8, 228u8, 73u8, 131u8, 180u8, 200u8, 126u8, 134u8, 245u8, 128u8, 98u8, 110u8, 194u8, 247u8, 234u8, 12u8]
}

#[verifier::opaque]
spec fn acc_4_87() -> Seq<u8> {
    seq![141u8, 228u8, 73u8, 131u8, 180u8, 200u8, 126u8, 134u8, 245u8, 128u8, 98u8, 110u8, 194u8, 247u8, 234u8, 12u8]
}

#[verifier::opaque]
spec fn acc_4_88() -> Seq<u8> {
    seq![65u8, 193u8, 181u8, 128u8, 80u8, 93u8, 53u8, 184u8, 237u8, 57u8, 160u8, 105u8, 165u8, 71u8, 192u8, 90u8]
}

#[verifier::opaque]
spec fn acc_4_89() -> Seq<u8> {
    seq![65u8, 193u8, 181u8, 128u8, 80u8, 93u8, 53u8, 184u8, 237u8, 57u8, 160u8, 105u8, 165u8, 71u8, 192u8, 90u8]
}

#[verifier::opaque]
spec fn acc_4_90() -> Seq<u8> {
    seq![65u8, 193u8, 181u8, 128u8, 80u8, 93u8, 53u8, 184u8, 237u8, 57u8, 160u8, 105u8, 165u8, 71u8, 192u8, 90u8]
}

#[verifier::opaque]
spec fn acc_4_91() -> Seq<u8> {
    seq![65u8, 193u8, 181u8, 128u8, 80u8, 93u8, 53u8, 184u8, 237u8, 57u8, 160u8, 105u8, 165u8, 71u8, 192u8, 90u8]
}

#[verifier::opaque]
spec fn acc_4_92() -> Seq<u8> {
    seq![65u8, 193u8, 181u8, 128u8, 80u8, 93u8, 53u8, 184u8, 237u8, 57u8, 160u8, 105u8, 165u8, 71u8, 192u8, 90u8]
}

#[verifier::opaque]
spec fn acc_4_93() -> Seq<u8> {
    seq![65u8, 193u8, 181u8, 128u8, 80u8, 93u8, 53u8, 184u8, 237u8, 57u8, 160u8, 105u8, 165u8, 71u8, 192u8, 90u8]
}

#[verifier::opaque]
spec fn acc_4_94() -> Seq<u8> {
    seq![65u8, 193u8, 181u8, 128u8, 80u8, 93u8, 53u8, 184u8, 237u8, 57u8, 160u8, 105u8, 165u8, 71u8, 192u8, 90u8]
}

#[verifier::opaque]
spec fn acc_4_95() -> Seq<u8> {
    seq![16u8, 50u8, 167u8, 126u8, 81u8, 175u8, 255u8, 157u8, 242u8, 181u8, 252u8, 136u8, 38u8, 116u8, 152u8, 79u8]
}

#[verifier::opaque]
spec fn acc_4_96() -> Seq<u8> {
    seq![16u8, 50u8, 167u8, 126u8, 81u8, 175u8, 255u8, 157u8, 242u8, 181u8, 252u8, 136u8, 38u8, 116u8, 152u8, 79u8]
}

#[verifier::opaque]
spec fn acc_4_97() -> Seq<u8> {
    seq![16u8, 50u8, 167u8, 126u8, 81u8, 175u8, 255u8, 157u8, 242u8, 181u8, 252u8, 136u8, 38u8, 116u8, 152u8, 79u8]
}

#[verifier::opaque]
spec fn acc_4_98() -> Seq<u8> {
    seq![152u8, 168u8, 48u8, 142u8, 94u8, 63u8, 168u8, 179u8, 11u8, 213u8, 24u8, 130u8, 57u8, 232u8, 89u8, 229u8]
}

#[verifier::opaque]
spec fn acc_4_99() -> Seq<u8> {
    seq![15u8, 157u8, 31u8, 111u8, 65u8, 31u8, 7u8, 239u8, 249u8, 20u8, 208u8, 151u8, 7u8, 208u8, 218u8, 176u8]
}

#[verifier::opaque]
spec fn acc_4_100() -> Seq<u8> {
    seq![15u8, 157u8, 31u8, 111u8, 65u8, 31u8, 7u8, 239u8, 249u8, 20u8, 208u8, 151u8, 7u8, 208u8, 218u8, 176u8]
}

#[verifier::opaque]
spec fn acc_4_101() -> Seq<u8> {
    seq![15u8, 157u8, 31u8, 111u8, 65u8, 31u8, 7u8, 239u8, 249u8, 20u8, 208u8, 151u8, 7u8, 208u8, 218u8, 176u8]
}

#[verifier::opaque]
spec fn acc_4_102() -> Seq<u8> {
    seq![15u8, 157u8, 31u8, 111u8, 65u8, 31u8, 7u8, 239u8, 249u8, 20u8, 208u8, 151u8, 7u8, 208u8, 218u8, 176u8]
}

#[verifier::opaque]
spec fn acc_4_103() -> Seq<u8> {
    seq![228u8, 198u8, 236u8, 125u8, 191u8, 30u8, 245u8, 37u8, 220u8, 11u8, 92u8, 203u8, 230u8, 83u8, 233u8, 232u8]
}

#[verifier::opaque]
spec fn acc_4_104() -> Seq<u8> {
    seq![228u8, 198u8, 236u8, 125u8, 191u8, 30u8, 245u8, 37u8, 220u8, 11u8, 92u8, 203u8, 230u8, 83u8, 233u8, 232u8]
}

#[verifier::opaque]
spec fn acc_4_105() -> Seq<u8> {
    seq![228u8, 198u8, 236u8, 125u8, 191u8, 30u8, 245u8, 37u8, 220u8, 11u8, 92u8, 203u8, 230u8, 83u8, 233u8, 232u8]
}

#[verifier::opaque]
spec fn acc_4_106() -> Seq<u8> {
    seq![178u8, 24u8, 118u8, 234u8, 79u8, 17u8, 101u8, 114u8, 242u8, 242u8, 60u8, 47u8, 236u8, 76u8, 117u8, 41u8]
}

#[verifier::opaque]
spec fn acc_4_107() -> Seq<u8> {
    seq![153u8, 164u8, 67u8, 197u8, 174u8, 14u8, 69u8, 221u8, 174u8, 0u8, 253u8, 231u8, 249u8, 114u8, 77u8, 170u8]
}

#[verifier::opaque]
spec fn acc_4_108() -> Seq<u8> {
    seq![153u8, 164u8, 67u8, 197u8, 174u8, 14u8, 69u8, 221u8, 174u8, 0u8, 253u8, 231u8, 249u8, 114u8, 77u8, 170u8]
}

#[verifier::opaque]
spec fn acc_4_109() -> Seq<u8> {
    seq![59u8, 85u8, 149u8, 121u8, 42u8, 113u8, 197u8, 97u8, 220u8, 201u8, 250u8, 196u8, 174u8, 138u8, 173u8, 166u8]
}

#[verifier::opaque]
spec fn acc_4_110() -> Seq<u8> {
    seq![127u8, 182u8, 56u8, 0u8, 35u8, 142u8, 197u8, 24u8, 57u8, 91u8, 245u8, 130u8, 0u8, 122u8, 108u8, 191u8]
}

#[verifier::opaque]
spec fn acc_4_111() -> Seq<u8> {
    seq![127u8, 182u8, 56u8, 0u8, 35u8, 142u8, 197u8, 24u8, 57u8, 91u8, 245u8, 130u8, 0u8, 122u8, 108u8, 191u8]
}

#[verifier::opaque]
spec fn acc_4_112() -> Seq<u8> {
    seq![127u8, 182u8, 56u8, 0u8, 35u8, 142u8, 197u8, 24u8, 57u8, 91u8, 245u8, 130u8, 0u8, 122u8, 108u8, 191u8]
}

#[verifier::opaque]
spec fn acc_4_113() -> Seq<u8> {
    seq![95u8, 172u8, 87u8, 205u8, 104u8, 118u8, 194u8, 208u8, 18u8, 204u8, 137u8, 178u8, 114u8, 255u8, 99u8, 113u8]
}

#[verifier::opaque]
spec fn acc_4_114() -> Seq<u8> {
    seq![152u8, 152u8, 137u8, 87u8, 255u8, 134u8, 205u8, 64u8, 69u8, 226u8, 112u8, 210u8, 150u8, 245u8, 124u8, 237u8]
}

#[verifier::opaque]
spec fn acc_4_115() -> Seq<u8> {
    seq![152u8, 152u8, 137u8, 87u8, 255u8, 134u8, 205u8, 64u8, 69u8, 226u8, 112u8, 210u8, 150u8, 245u8, 124u8, 237u8]
}

#[verifier::opaque]
spec fn acc_4_116() -> Seq<u8> {
    seq![138u8, 74u8, 241u8, 60u8, 161u8, 68u8, 242u8, 0u8, 27u8, 91u8, 148u8, 81u8, 7u8, 222u8, 0u8, 157u8]
}

#[verifier::opaque]
spec fn acc_4_117() -> Seq<u8> {
    seq![138u8, 74u8, 241u8, 60u8, 161u8, 68u8, 242u8, 0u8, 27u8, 91u8, 148u8, 81u8, 7u8, 222u8, 0u8, 157u8]
}

#[verifier::opaque]
spec fn acc_4_118() -> Seq<u8> {
    seq![138u8, 74u8, 241u8, 60u8, 161u8, 68u8, 242u8, 0u8, 27u8, 91u8, 148u8, 81u8, 7u8, 222u8, 0u8, 157u8]
}

#[verifier::opaque]
spec fn acc_4_119() -> Seq<u8> {
    seq![147u8, 219u8, 55u8, 103u8, 82u8, 86u8, 12u8, 1u8, 233u8, 145u8, 177u8, 78u8, 139u8, 130u8, 225u8, 30u8]
}

#[verifier::opaque]
spec fn acc_4_120() -> Seq<u8> {
    seq![38u8, 249u8, 186u8, 208u8, 180u8, 115u8, 240u8, 2u8, 13u8, 4u8, 250u8, 112u8, 147u8, 59u8, 35u8, 25u8]
}

#[verifier::opaque]
spec fn acc_4_121() -> Seq<u8> {
    seq![76u8, 188u8, 160u8, 191u8, 121u8, 56u8, 8u8, 5u8, 197u8, 47u8, 109u8, 12u8, 163u8, 73u8, 166u8, 22u8]
}

#[verifier::opaque]
spec fn acc_4_122() -> Seq<u8> {
    seq![76u8, 188u8, 160u8, 191u8, 121u8, 56u8, 8u8, 5u8, 197u8, 47u8, 109u8, 12u8, 163u8, 73u8, 166u8, 22u8]
}

#[verifier::opaque]
spec fn acc_4_123() -> Seq<u8> {
    seq![228u8, 169u8, 201u8, 3u8, 76u8, 23u8, 233u8, 26u8, 229u8, 128u8, 49u8, 254u8, 98u8, 129u8, 179u8, 40u8]
}

#[verifier::opaque]
spec fn acc_4_124() -> Seq<u8> {
    seq![180u8, 130u8, 27u8, 123u8, 39u8, 73u8, 43u8, 37u8, 165u8, 222u8, 136u8, 26u8, 225u8, 16u8, 152u8, 84u8]
}

#[verifier::opaque]
spec fn acc_4_125() -> Seq<u8> {
    seq![180u8, 130u8, 27u8, 123u8, 39u8, 73u8, 43u8, 37u8, 165u8, 222u8, 136u8, 26u8, 225u8, 16u8, 152u8, 84u8]
}

#[verifier::opaque]
spec fn acc_4_126() -> Seq<u8> {
    seq![180u8, 130u8, 27u8, 123u8, 39u8, 73u8, 43u8, 37u8, 165u8, 222u8, 136u8, 26u8, 225u8, 16u8, 152u8, 84u8]
}

#[verifier::opaque]
spec fn acc_4_127() -> Seq<u8> {
    seq![180u8, 130u8, 27u8, 123u8, 39u8, 73u8, 43u8, 37u8, 165u8, 222u8, 136u8, 26u8, 225u8, 16u8, 152u8, 84u8]
}

#[verifier::opaque]
spec fn acc_4_128() -> Seq<u8> {
    seq![180u8, 130u8, 27u8, 123u8, 39u8, 73u8, 43u8, 37u8, 165u8, 222u8, 136u8, 26u8, 225u8, 16u8, 152u8, 84u8]
}

proof fn lemma_acc_4_0()
    ensures
        shift_add_mul(alpha_spec(), alpha_pow_4(), 0) == acc_4_0(),
{
    reveal(acc_4_0);
    assert(shift_add_mul(alpha_spec(), alpha_pow_4(), 0) =~= acc_4_0());
}

proof fn lemma_acc_4_1()
    ensures
        shift_add_mul(alpha_spec(), alpha_pow_4(), 1) == acc_4_1(),
{
    lemma_acc_4_0();
    lemma_alpha_x_0();
    lemma_alpha_byte_facts();
    reveal(bytes_p_4_1);
    reveal(alpha_pow_4);
    reveal(acc_4_0);
    reveal(acc_4_1);
    reveal(alpha_x_0);
    assert(bits_of_bytes(alpha_pow_4())[0] == bit_of(73u8, 0));
    assert(shift_add_mul(alpha_spec(), alpha_pow_4(), 1) =~= acc_4_1());
}

proof fn lemma_acc_4_2()
    ensures
        shift_add_mul(alpha_spec(), alpha_pow_4(), 2) == acc_4_2(),
{
    lemma_acc_4_1();
    lemma_alpha_x_1();
    lemma_alpha_byte_facts();
    reveal(bytes_p_4_2);
    reveal(alpha_pow_4);
    reveal(acc_4_1);
    reveal(acc_4_2);
    reveal(alpha_x_1);
    assert(bits_of_bytes(alpha_pow_4())[1] == bit_of(73u8, 1));
    assert(shift_add_mul(alpha_spec(), alpha_pow_4(), 2) =~= acc_4_2());
}

proof fn lemma_acc_4_3()
    ensures
        shift_add_mul(alpha_spec(), alpha_pow_4(), 3) == acc_4_3(),
{
    lemma_acc_4_2();
    lemma_alpha_x_2();
    lemma_alpha_byte_facts();
    reveal(bytes_p_4_3);
    reveal(alpha_pow_4);
    reveal(acc_4_2);
    reveal(acc_4_3);
    reveal(alpha_x_2);
    assert(bits_of_bytes(alpha_pow_4())[2] == bit_of(73u8, 2));
    assert(shift_add_mul(alpha_spec(), alpha_pow_4(), 3) =~= acc_4_3());
}

proof fn lemma_acc_4_4()
    ensures
        shift_add_mul(alpha_spec(), alpha_pow_4(), 4) == acc_4_4(),
{
    lemma_acc_4_3();
    lemma_alpha_x_3();
    lemma_alpha_byte_facts();
    reveal(bytes_p_4_4);
    reveal(alpha_pow_4);
    reveal(acc_4_3);
    reveal(acc_4_4);
    reveal(alpha_x_3);
    assert(bits_of_bytes(alpha_pow_4())[3] == bit_of(73u8, 3));
    assert(shift_add_mul(alpha_spec(), alpha_pow_4(), 4) =~= acc_4_4());
}

proof fn lemma_acc_4_5()
    ensures
        shift_add_mul(alpha_spec(), alpha_pow_4(), 5) == acc_4_5(),
{
    lemma_acc_4_4();
    lemma_alpha_x_4();
    lemma_alpha_byte_facts();
    reveal(bytes_p_4_5);
    reveal(alpha_pow_4);
    reveal(acc_4_4);
    reveal(acc_4_5);
    reveal(alpha_x_4);
    assert(bits_of_bytes(alpha_pow_4())[4] == bit_of(73u8, 4));
    assert(shift_add_mul(alpha_spec(), alpha_pow_4(), 5) =~= acc_4_5());
}

proof fn lemma_acc_4_6()
    ensures
        shift_add_mul(alpha_spec(), alpha_pow_4(), 6) == acc_4_6(),
{
    lemma_acc_4_5();
    lemma_alpha_x_5();
    lemma_alpha_byte_facts();
    reveal(bytes_p_4_6);
    reveal(alpha_pow_4);
    reveal(acc_4_5);
    reveal(acc_4_6);
    reveal(alpha_x_5);
    assert(bits_of_bytes(alpha_pow_4())[5] == bit_of(73u8, 5));
    assert(shift_add_mul(alpha_spec(), alpha_pow_4(), 6) =~= acc_4_6());
}

proof fn lemma_acc_4_7()
    ensures
        shift_add_mul(alpha_spec(), alpha_pow_4(), 7) == acc_4_7(),
{
    lemma_acc_4_6();
    lemma_alpha_x_6();
    lemma_alpha_byte_facts();
    reveal(bytes_p_4_7);
    reveal(alpha_pow_4);
    reveal(acc_4_6);
    reveal(acc_4_7);
    reveal(alpha_x_6);
    assert(bits_of_bytes(alpha_pow_4())[6] == bit_of(73u8, 6));
    assert(shift_add_mul(alpha_spec(), alpha_pow_4(), 7) =~= acc_4_7());
}

proof fn lemma_acc_4_8()
    ensures
        shift_add_mul(alpha_spec(), alpha_pow_4(), 8) == acc_4_8(),
{
    lemma_acc_4_7();
    lemma_alpha_x_7();
    lemma_alpha_byte_facts();
    reveal(bytes_p_4_8);
    reveal(alpha_pow_4);
    reveal(acc_4_7);
    reveal(acc_4_8);
    reveal(alpha_x_7);
    assert(bits_of_bytes(alpha_pow_4())[7] == bit_of(73u8, 7));
    assert(shift_add_mul(alpha_spec(), alpha_pow_4(), 8) =~= acc_4_8());
}

proof fn lemma_acc_4_9()
    ensures
        shift_add_mul(alpha_spec(), alpha_pow_4(), 9) == acc_4_9(),
{
    lemma_acc_4_8();
    lemma_alpha_x_8();
    lemma_alpha_byte_facts();
    reveal(bytes_p_4_9);
    reveal(alpha_pow_4);
    reveal(acc_4_8);
    reveal(acc_4_9);
    reveal(alpha_x_8);
    assert(bits_of_bytes(alpha_pow_4())[8] == bit_of(152u8, 0));
    assert(shift_add_mul(alpha_spec(), alpha_pow_4(), 9) =~= acc_4_9());
}

proof fn lemma_acc_4_10()
    ensures
        shift_add_mul(alpha_spec(), alpha_pow_4(), 10) == acc_4_10(),
{
    lemma_acc_4_9();
    lemma_alpha_x_9();
    lemma_alpha_byte_facts();
    reveal(bytes_p_4_10);
    reveal(alpha_pow_4);
    reveal(acc_4_9);
    reveal(acc_4_10);
    reveal(alpha_x_9);
    assert(bits_of_bytes(alpha_pow_4())[9] == bit_of(152u8, 1));
    assert(shift_add_mul(alpha_spec(), alpha_pow_4(), 10) =~= acc_4_10());
}

proof fn lemma_acc_4_11()
    ensures
        shift_add_mul(alpha_spec(), alpha_pow_4(), 11) == acc_4_11(),
{
    lemma_acc_4_10();
    lemma_alpha_x_10();
    lemma_alpha_byte_facts();
    reveal(bytes_p_4_11);
    reveal(alpha_pow_4);
    reveal(acc_4_10);
    reveal(acc_4_11);
    reveal(alpha_x_10);
    assert(bits_of_bytes(alpha_pow_4())[10] == bit_of(152u8, 2));
    assert(shift_add_mul(alpha_spec(), alpha_pow_4(), 11) =~= acc_4_11());
}

proof fn lemma_acc_4_12()
    ensures
        shift_add_mul(alpha_spec(), alpha_pow_4(), 12) == acc_4_12(),
{
    lemma_acc_4_11();
    lemma_alpha_x_11();
    lemma_alpha_byte_facts();
    reveal(bytes_p_4_12);
    reveal(alpha_pow_4);
    reveal(acc_4_11);
    reveal(acc_4_12);
    reveal(alpha_x_11);
    assert(bits_of_bytes(alpha_pow_4())[11] == bit_of(152u8, 3));
    assert(shift_add_mul(alpha_spec(), alpha_pow_4(), 12) =~= acc_4_12());
}

proof fn lemma_acc_4_13()
    ensures
        shift_add_mul(alpha_spec(), alpha_pow_4(), 13) == acc_4_13(),
{
    lemma_acc_4_12();
    lemma_alpha_x_12();
    lemma_alpha_byte_facts();
    reveal(bytes_p_4_13);
    reveal(alpha_pow_4);
    reveal(acc_4_12);
    reveal(acc_4_13);
    reveal(alpha_x_12);
    assert(bits_of_bytes(alpha_pow_4())[12] == bit_of(152u8, 4));
    assert(shift_add_mul(alpha_spec(), alpha_pow_4(), 13) =~= acc_4_13());
}

proof fn lemma_acc_4_14()
    ensures
        shift_add_mul(alpha_spec(), alpha_pow_4(), 14) == acc_4_14(),
{
    lemma_acc_4_13();
    lemma_alpha_x_13();
    lemma_alpha_byte_facts();
    reveal(bytes_p_4_14);
    reveal(alpha_pow_4);
    reveal(acc_4_13);
    reveal(acc_4_14);
    reveal(alpha_x_13);
    assert(bits_of_bytes(alpha_pow_4())[13] == bit_of(152u8, 5));
    assert(shift_add_mul(alpha_spec(), alpha_pow_4(), 14) =~= acc_4_14());
}

proof fn lemma_acc_4_15()
    ensures
        shift_add_mul(alpha_spec(), alpha_pow_4(), 15) == acc_4_15(),
{
    lemma_acc_4_14();
    lemma_alpha_x_14();
    lemma_alpha_byte_facts();
    reveal(bytes_p_4_15);
    reveal(alpha_pow_4);
    reveal(acc_4_14);
    reveal(acc_4_15);
    reveal(alpha_x_14);
    assert(bits_of_bytes(alpha_pow_4())[14] == bit_of(152u8, 6));
    assert(shift_add_mul(alpha_spec(), alpha_pow_4(), 15) =~= acc_4_15());
}

proof fn lemma_acc_4_16()
    ensures
        shift_add_mul(alpha_spec(), alpha_pow_4(), 16) == acc_4_16(),
{
    lemma_acc_4_15();
    lemma_alpha_x_15();
    lemma_alpha_byte_facts();
    reveal(bytes_p_4_16);
    reveal(alpha_pow_4);
    reveal(acc_4_15);
    reveal(acc_4_16);
    reveal(alpha_x_15);
    assert(bits_of_bytes(alpha_pow_4())[15] == bit_of(152u8, 7));
    assert(shift_add_mul(alpha_spec(), alpha_pow_4(), 16) =~= acc_4_16());
}

proof fn lemma_acc_4_17()
    ensures
        shift_add_mul(alpha_spec(), alpha_pow_4(), 17) == acc_4_17(),
{
    lemma_acc_4_16();
    lemma_alpha_x_16();
    lemma_alpha_byte_facts();
    reveal(bytes_p_4_17);
    reveal(alpha_pow_4);
    reveal(acc_4_16);
    reveal(acc_4_17);
    reveal(alpha_x_16);
    assert(bits_of_bytes(alpha_pow_4())[16] == bit_of(46u8, 0));
    assert(shift_add_mul(alpha_spec(), alpha_pow_4(), 17) =~= acc_4_17());
}

proof fn lemma_acc_4_18()
    ensures
        shift_add_mul(alpha_spec(), alpha_pow_4(), 18) == acc_4_18(),
{
    lemma_acc_4_17();
    lemma_alpha_x_17();
    lemma_alpha_byte_facts();
    reveal(bytes_p_4_18);
    reveal(alpha_pow_4);
    reveal(acc_4_17);
    reveal(acc_4_18);
    reveal(alpha_x_17);
    assert(bits_of_bytes(alpha_pow_4())[17] == bit_of(46u8, 1));
    assert(shift_add_mul(alpha_spec(), alpha_pow_4(), 18) =~= acc_4_18());
}

proof fn lemma_acc_4_19()
    ensures
        shift_add_mul(alpha_spec(), alpha_pow_4(), 19) == acc_4_19(),
{
    lemma_acc_4_18();
    lemma_alpha_x_18();
    lemma_alpha_byte_facts();
    reveal(bytes_p_4_19);
    reveal(alpha_pow_4);
    reveal(acc_4_18);
    reveal(acc_4_19);
    reveal(alpha_x_18);
    assert(bits_of_bytes(alpha_pow_4())[18] == bit_of(46u8, 2));
    assert(shift_add_mul(alpha_spec(), alpha_pow_4(), 19) =~= acc_4_19());
}

proof fn lemma_acc_4_20()
    ensures
        shift_add_mul(alpha_spec(), alpha_pow_4(), 20) == acc_4_20(),
{
    lemma_acc_4_19();
    lemma_alpha_x_19();
    lemma_alpha_byte_facts();
    reveal(bytes_p_4_20);
    reveal(alpha_pow_4);
    reveal(acc_4_19);
    reveal(acc_4_20);
    reveal(alpha_x_19);
    assert(bits_of_bytes(alpha_pow_4())[19] == bit_of(46u8, 3));
    assert(shift_add_mul(alpha_spec(), alpha_pow_4(), 20) =~= acc_4_20());
}

proof fn lemma_acc_4_21()
    ensures
        shift_add_mul(alpha_spec(), alpha_pow_4(), 21) == acc_4_21(),
{
    lemma_acc_4_20();
    lemma_alpha_x_20();
    lemma_alpha_byte_facts();
    reveal(bytes_p_4_21);
    reveal(alpha_pow_4);
    reveal(acc_4_20);
    reveal(acc_4_21);
    reveal(alpha_x_20);
    assert(bits_of_bytes(alpha_pow_4())[20] == bit_of(46u8, 4));
    assert(shift_add_mul(alpha_spec(), alpha_pow_4(), 21) =~= acc_4_21());
}

proof fn lemma_acc_4_22()
    ensures
        shift_add_mul(alpha_spec(), alpha_pow_4(), 22) == acc_4_22(),
{
    lemma_acc_4_21();
    lemma_alpha_x_21();
    lemma_alpha_byte_facts();
    reveal(bytes_p_4_22);
    reveal(alpha_pow_4);
    reveal(acc_4_21);
    reveal(acc_4_22);
    reveal(alpha_x_21);
    assert(bits_of_bytes(alpha_pow_4())[21] == bit_of(46u8, 5));
    assert(shift_add_mul(alpha_spec(), alpha_pow_4(), 22) =~= acc_4_22());
}

proof fn lemma_acc_4_23()
    ensures
        shift_add_mul(alpha_spec(), alpha_pow_4(), 23) == acc_4_23(),
{
    lemma_acc_4_22();
    lemma_alpha_x_22();
    lemma_alpha_byte_facts();
    reveal(bytes_p_4_23);
    reveal(alpha_pow_4);
    reveal(acc_4_22);
    reveal(acc_4_23);
    reveal(alpha_x_22);
    assert(bits_of_bytes(alpha_pow_4())[22] == bit_of(46u8, 6));
    assert(shift_add_mul(alpha_spec(), alpha_pow_4(), 23) =~= acc_4_23());
}

proof fn lemma_acc_4_24()
    ensures
        shift_add_mul(alpha_spec(), alpha_pow_4(), 24) == acc_4_24(),
{
    lemma_acc_4_23();
    lemma_alpha_x_23();
    lemma_alpha_byte_facts();
    reveal(bytes_p_4_24);
    reveal(alpha_pow_4);
    reveal(acc_4_23);
    reveal(acc_4_24);
    reveal(alpha_x_23);
    assert(bits_of_bytes(alpha_pow_4())[23] == bit_of(46u8, 7));
    assert(shift_add_mul(alpha_spec(), alpha_pow_4(), 24) =~= acc_4_24());
}

proof fn lemma_acc_4_25()
    ensures
        shift_add_mul(alpha_spec(), alpha_pow_4(), 25) == acc_4_25(),
{
    lemma_acc_4_24();
    lemma_alpha_x_24();
    lemma_alpha_byte_facts();
    reveal(bytes_p_4_25);
    reveal(alpha_pow_4);
    reveal(acc_4_24);
    reveal(acc_4_25);
    reveal(alpha_x_24);
    assert(bits_of_bytes(alpha_pow_4())[24] == bit_of(60u8, 0));
    assert(shift_add_mul(alpha_spec(), alpha_pow_4(), 25) =~= acc_4_25());
}

proof fn lemma_acc_4_26()
    ensures
        shift_add_mul(alpha_spec(), alpha_pow_4(), 26) == acc_4_26(),
{
    lemma_acc_4_25();
    lemma_alpha_x_25();
    lemma_alpha_byte_facts();
    reveal(bytes_p_4_26);
    reveal(alpha_pow_4);
    reveal(acc_4_25);
    reveal(acc_4_26);
    reveal(alpha_x_25);
    assert(bits_of_bytes(alpha_pow_4())[25] == bit_of(60u8, 1));
    assert(shift_add_mul(alpha_spec(), alpha_pow_4(), 26) =~= acc_4_26());
}

proof fn lemma_acc_4_27()
    ensures
        shift_add_mul(alpha_spec(), alpha_pow_4(), 27) == acc_4_27(),
{
    lemma_acc_4_26();
    lemma_alpha_x_26();
    lemma_alpha_byte_facts();
    reveal(bytes_p_4_27);
    reveal(alpha_pow_4);
    reveal(acc_4_26);
    reveal(acc_4_27);
    reveal(alpha_x_26);
    assert(bits_of_bytes(alpha_pow_4())[26] == bit_of(60u8, 2));
    assert(shift_add_mul(alpha_spec(), alpha_pow_4(), 27) =~= acc_4_27());
}

proof fn lemma_acc_4_28()
    ensures
        shift_add_mul(alpha_spec(), alpha_pow_4(), 28) == acc_4_28(),
{
    lemma_acc_4_27();
    lemma_alpha_x_27();
    lemma_alpha_byte_facts();
    reveal(bytes_p_4_28);
    reveal(alpha_pow_4);
    reveal(acc_4_27);
    reveal(acc_4_28);
    reveal(alpha_x_27);
    assert(bits_of_bytes(alpha_pow_4())[27] == bit_of(60u8, 3));
    assert(shift_add_mul(alpha_spec(), alpha_pow_4(), 28) =~= acc_4_28());
}

proof fn lemma_acc_4_29()
    ensures
        shift_add_mul(alpha_spec(), alpha_pow_4(), 29) == acc_4_29(),
{
    lemma_acc_4_28();
    lemma_alpha_x_28();
    lemma_alpha_byte_facts();
    reveal(bytes_p_4_29);
    reveal(alpha_pow_4);
    reveal(acc_4_28);
    reveal(acc_4_29);
    reveal(alpha_x_28);
    assert(bits_of_bytes(alpha_pow_4())[28] == bit_of(60u8, 4));
    assert(shift_add_mul(alpha_spec(), alpha_pow_4(), 29) =~= acc_4_29());
}

proof fn lemma_acc_4_30()
    ensures
        shift_add_mul(alpha_spec(), alpha_pow_4(), 30) == acc_4_30(),
{
    lemma_acc_4_29();
    lemma_alpha_x_29();
    lemma_alpha_byte_facts();
    reveal(bytes_p_4_30);
    reveal(alpha_pow_4);
    reveal(acc_4_29);
    reveal(acc_4_30);
    reveal(alpha_x_29);
    assert(bits_of_bytes(alpha_pow_4())[29] == bit_of(60u8, 5));
    assert(shift_add_mul(alpha_spec(), alpha_pow_4(), 30) =~= acc_4_30());
}

proof fn lemma_acc_4_31()
    ensures
        shift_add_mul(alpha_spec(), alpha_pow_4(), 31) == acc_4_31(),
{
    lemma_acc_4_30();
    lemma_alpha_x_30();
    lemma_alpha_byte_facts();
    reveal(bytes_p_4_31);
    reveal(alpha_pow_4);
    reveal(acc_4_30);
    reveal(acc_4_31);
    reveal(alpha_x_30);
    assert(bits_of_bytes(alpha_pow_4())[30] == bit_of(60u8, 6));
    assert(shift_add_mul(alpha_spec(), alpha_pow_4(), 31) =~= acc_4_31());
}

proof fn lemma_acc_4_32()
    ensures
        shift_add_mul(alpha_spec(), alpha_pow_4(), 32) == acc_4_32(),
{
    lemma_acc_4_31();
    lemma_alpha_x_31();
    lemma_alpha_byte_facts();
    reveal(bytes_p_4_32);
    reveal(alpha_pow_4);
    reveal(acc_4_31);
    reveal(acc_4_32);
    reveal(alpha_x_31);
    assert(bits_of_bytes(alpha_pow_4())[31] == bit_of(60u8, 7));
    assert(shift_add_mul(alpha_spec(), alpha_pow_4(), 32) =~= acc_4_32());
}

proof fn lemma_acc_4_33()
    ensures
        shift_add_mul(alpha_spec(), alpha_pow_4(), 33) == acc_4_33(),
{
    lemma_acc_4_32();
    lemma_alpha_x_32();
    lemma_alpha_byte_facts();
    reveal(bytes_p_4_33);
    reveal(alpha_pow_4);
    reveal(acc_4_32);
    reveal(acc_4_33);
    reveal(alpha_x_32);
    assert(bits_of_bytes(alpha_pow_4())[32] == bit_of(72u8, 0));
    assert(shift_add_mul(alpha_spec(), alpha_pow_4(), 33) =~= acc_4_33());
}

proof fn lemma_acc_4_34()
    ensures
        shift_add_mul(alpha_spec(), alpha_pow_4(), 34) == acc_4_34(),
{
    lemma_acc_4_33();
    lemma_alpha_x_33();
    lemma_alpha_byte_facts();
    reveal(bytes_p_4_34);
    reveal(alpha_pow_4);
    reveal(acc_4_33);
    reveal(acc_4_34);
    reveal(alpha_x_33);
    assert(bits_of_bytes(alpha_pow_4())[33] == bit_of(72u8, 1));
    assert(shift_add_mul(alpha_spec(), alpha_pow_4(), 34) =~= acc_4_34());
}

proof fn lemma_acc_4_35()
    ensures
        shift_add_mul(alpha_spec(), alpha_pow_4(), 35) == acc_4_35(),
{
    lemma_acc_4_34();
    lemma_alpha_x_34();
    lemma_alpha_byte_facts();
    reveal(bytes_p_4_35);
    reveal(alpha_pow_4);
    reveal(acc_4_34);
    reveal(acc_4_35);
    reveal(alpha_x_34);
    assert(bits_of_bytes(alpha_pow_4())[34] == bit_of(72u8, 2));
    assert(shift_add_mul(alpha_spec(), alpha_pow_4(), 35) =~= acc_4_35());
}

proof fn lemma_acc_4_36()
    ensures
        shift_add_mul(alpha_spec(), alpha_pow_4(), 36) == acc_4_36(),
{
    lemma_acc_4_35();
    lemma_alpha_x_35();
    lemma_alpha_byte_facts();
    reveal(bytes_p_4_36);
    reveal(alpha_pow_4);
    reveal(acc_4_35);
    reveal(acc_4_36);
    reveal(alpha_x_35);
    assert(bits_of_bytes(alpha_pow_4())[35] == bit_of(72u8, 3));
    assert(shift_add_mul(alpha_spec(), alpha_pow_4(), 36) =~= acc_4_36());
}

proof fn lemma_acc_4_37()
    ensures
        shift_add_mul(alpha_spec(), alpha_pow_4(), 37) == acc_4_37(),
{
    lemma_acc_4_36();
    lemma_alpha_x_36();
    lemma_alpha_byte_facts();
    reveal(bytes_p_4_37);
    reveal(alpha_pow_4);
    reveal(acc_4_36);
    reveal(acc_4_37);
    reveal(alpha_x_36);
    assert(bits_of_bytes(alpha_pow_4())[36] == bit_of(72u8, 4));
    assert(shift_add_mul(alpha_spec(), alpha_pow_4(), 37) =~= acc_4_37());
}

proof fn lemma_acc_4_38()
    ensures
        shift_add_mul(alpha_spec(), alpha_pow_4(), 38) == acc_4_38(),
{
    lemma_acc_4_37();
    lemma_alpha_x_37();
    lemma_alpha_byte_facts();
    reveal(bytes_p_4_38);
    reveal(alpha_pow_4);
    reveal(acc_4_37);
    reveal(acc_4_38);
    reveal(alpha_x_37);
    assert(bits_of_bytes(alpha_pow_4())[37] == bit_of(72u8, 5));
    assert(shift_add_mul(alpha_spec(), alpha_pow_4(), 38) =~= acc_4_38());
}

proof fn lemma_acc_4_39()
    ensures
        shift_add_mul(alpha_spec(), alpha_pow_4(), 39) == acc_4_39(),
{
    lemma_acc_4_38();
    lemma_alpha_x_38();
    lemma_alpha_byte_facts();
    reveal(bytes_p_4_39);
    reveal(alpha_pow_4);
    reveal(acc_4_38);
    reveal(acc_4_39);
    reveal(alpha_x_38);
    assert(bits_of_bytes(alpha_pow_4())[38] == bit_of(72u8, 6));
    assert(shift_add_mul(alpha_spec(), alpha_pow_4(), 39) =~= acc_4_39());
}

proof fn lemma_acc_4_40()
    ensures
        shift_add_mul(alpha_spec(), alpha_pow_4(), 40) == acc_4_40(),
{
    lemma_acc_4_39();
    lemma_alpha_x_39();
    lemma_alpha_byte_facts();
    reveal(bytes_p_4_40);
    reveal(alpha_pow_4);
    reveal(acc_4_39);
    reveal(acc_4_40);
    reveal(alpha_x_39);
    assert(bits_of_bytes(alpha_pow_4())[39] == bit_of(72u8, 7));
    assert(shift_add_mul(alpha_spec(), alpha_pow_4(), 40) =~= acc_4_40());
}

proof fn lemma_acc_4_41()
    ensures
        shift_add_mul(alpha_spec(), alpha_pow_4(), 41) == acc_4_41(),
{
    lemma_acc_4_40();
    lemma_alpha_x_40();
    lemma_alpha_byte_facts();
    reveal(bytes_p_4_41);
    reveal(alpha_pow_4);
    reveal(acc_4_40);
    reveal(acc_4_41);
    reveal(alpha_x_40);
    assert(bits_of_bytes(alpha_pow_4())[40] == bit_of(48u8, 0));
    assert(shift_add_mul(alpha_spec(), alpha_pow_4(), 41) =~= acc_4_41());
}

proof fn lemma_acc_4_42()
    ensures
        shift_add_mul(alpha_spec(), alpha_pow_4(), 42) == acc_4_42(),
{
    lemma_acc_4_41();
    lemma_alpha_x_41();
    lemma_alpha_byte_facts();
    reveal(bytes_p_4_42);
    reveal(alpha_pow_4);
    reveal(acc_4_41);
    reveal(acc_4_42);
    reveal(alpha_x_41);
    assert(bits_of_bytes(alpha_pow_4())[41] == bit_of(48u8, 1));
    assert(shift_add_mul(alpha_spec(), alpha_pow_4(), 42) =~= acc_4_42());
}

proof fn lemma_acc_4_43()
    ensures
        shift_add_mul(alpha_spec(), alpha_pow_4(), 43) == acc_4_43(),
{
    lemma_acc_4_42();
    lemma_alpha_x_42();
    lemma_alpha_byte_facts();
    reveal(bytes_p_4_43);
    reveal(alpha_pow_4);
    reveal(acc_4_42);
    reveal(acc_4_43);
    reveal(alpha_x_42);
    assert(bits_of_bytes(alpha_pow_4())[42] == bit_of(48u8, 2));
    assert(shift_add_mul(alpha_spec(), alpha_pow_4(), 43) =~= acc_4_43());
}

proof fn lemma_acc_4_44()
    ensures
        shift_add_mul(alpha_spec(), alpha_pow_4(), 44) == acc_4_44(),
{
    lemma_acc_4_43();
    lemma_alpha_x_43();
    lemma_alpha_byte_facts();
    reveal(bytes_p_4_44);
    reveal(alpha_pow_4);
    reveal(acc_4_43);
    reveal(acc_4_44);
    reveal(alpha_x_43);
    assert(bits_of_bytes(alpha_pow_4())[43] == bit_of(48u8, 3));
    assert(shift_add_mul(alpha_spec(), alpha_pow_4(), 44) =~= acc_4_44());
}

proof fn lemma_acc_4_45()
    ensures
        shift_add_mul(alpha_spec(), alpha_pow_4(), 45) == acc_4_45(),
{
    lemma_acc_4_44();
    lemma_alpha_x_44();
    lemma_alpha_byte_facts();
    reveal(bytes_p_4_45);
    reveal(alpha_pow_4);
    reveal(acc_4_44);
    reveal(acc_4_45);
    reveal(alpha_x_44);
    assert(bits_of_bytes(alpha_pow_4())[44] == bit_of(48u8, 4));
    assert(shift_add_mul(alpha_spec(), alpha_pow_4(), 45) =~= acc_4_45());
}

proof fn lemma_acc_4_46()
    ensures
        shift_add_mul(alpha_spec(), alpha_pow_4(), 46) == acc_4_46(),
{
    lemma_acc_4_45();
    lemma_alpha_x_45();
    lemma_alpha_byte_facts();
    reveal(bytes_p_4_46);
    reveal(alpha_pow_4);
    reveal(acc_4_45);
    reveal(acc_4_46);
    reveal(alpha_x_45);
    assert(bits_of_bytes(alpha_pow_4())[45] == bit_of(48u8, 5));
    assert(shift_add_mul(alpha_spec(), alpha_pow_4(), 46) =~= acc_4_46());
}

proof fn lemma_acc_4_47()
    ensures
        shift_add_mul(alpha_spec(), alpha_pow_4(), 47) == acc_4_47(),
{
    lemma_acc_4_46();
    lemma_alpha_x_46();
    lemma_alpha_byte_facts();
    reveal(bytes_p_4_47);
    reveal(alpha_pow_4);
    reveal(acc_4_46);
    reveal(acc_4_47);
    reveal(alpha_x_46);
    assert(bits_of_bytes(alpha_pow_4())[46] == bit_of(48u8, 6));
    assert(shift_add_mul(alpha_spec(), alpha_pow_4(), 47) =~= acc_4_47());
}

proof fn lemma_acc_4_48()
    ensures
        shift_add_mul(alpha_spec(), alpha_pow_4(), 48) == acc_4_48(),
{
    lemma_acc_4_47();
    lemma_alpha_x_47();
    lemma_alpha_byte_facts();
    reveal(bytes_p_4_48);
    reveal(alpha_pow_4);
    reveal(acc_4_47);
    reveal(acc_4_48);
    reveal(alpha_x_47);
    assert(bits_of_bytes(alpha_pow_4())[47] == bit_of(48u8, 7));
    assert(shift_add_mul(alpha_spec(), alpha_pow_4(), 48) =~= acc_4_48());
}

proof fn lemma_acc_4_49()
    ensures
        shift_add_mul(alpha_spec(), alpha_pow_4(), 49) == acc_4_49(),
{
    lemma_acc_4_48();
    lemma_alpha_x_48();
    lemma_alpha_byte_facts();
    reveal(bytes_p_4_49);
    reveal(alpha_pow_4);
    reveal(acc_4_48);
    reveal(acc_4_49);
    reveal(alpha_x_48);
    assert(bits_of_bytes(alpha_pow_4())[48] == bit_of(131u8, 0));
    assert(shift_add_mul(alpha_spec(), alpha_pow_4(), 49) =~= acc_4_49());
}

proof fn lemma_acc_4_50()
    ensures
        shift_add_mul(alpha_spec(), alpha_pow_4(), 50) == acc_4_50(),
{
    lemma_acc_4_49();
    lemma_alpha_x_49();
    lemma_alpha_byte_facts();
    reveal(bytes_p_4_50);
    reveal(alpha_pow_4);
    reveal(acc_4_49);
    reveal(acc_4_50);
    reveal(alpha_x_49);
    assert(bits_of_bytes(alpha_pow_4())[49] == bit_of(131u8, 1));
    assert(shift_add_mul(alpha_spec(), alpha_pow_4(), 50) =~= acc_4_50());
}

proof fn lemma_acc_4_51()
    ensures
        shift_add_mul(alpha_spec(), alpha_pow_4(), 51) == acc_4_51(),
{
    lemma_acc_4_50();
    lemma_alpha_x_50();
    lemma_alpha_byte_facts();
    reveal(bytes_p_4_51);
    reveal(alpha_pow_4);
    reveal(acc_4_50);
    reveal(acc_4_51);
    reveal(alpha_x_50);
    assert(bits_of_bytes(alpha_pow_4())[50] == bit_of(131u8, 2));
    assert(shift_add_mul(alpha_spec(), alpha_pow_4(), 51) =~= acc_4_51());
}

proof fn lemma_acc_4_52()
    ensures
        shift_add_mul(alpha_spec(), alpha_pow_4(), 52) == acc_4_52(),
{
    lemma_acc_4_51();
    lemma_alpha_x_51();
    lemma_alpha_byte_facts();
    reveal(bytes_p_4_52);
    reveal(alpha_pow_4);
    reveal(acc_4_51);
    reveal(acc_4_52);
    reveal(alpha_x_51);
    assert(bits_of_bytes(alpha_pow_4())[51] == bit_of(131u8, 3));
    assert(shift_add_mul(alpha_spec(), alpha_pow_4(), 52) =~= acc_4_52());
}

proof fn lemma_acc_4_53()
    ensures
        shift_add_mul(alpha_spec(), alpha_pow_4(), 53) == acc_4_53(),
{
    lemma_acc_4_52();
    lemma_alpha_x_52();
    lemma_alpha_byte_facts();
    reveal(bytes_p_4_53);
    reveal(alpha_pow_4);
    reveal(acc_4_52);
    reveal(acc_4_53);
    reveal(alpha_x_52);
    assert(bits_of_bytes(alpha_pow_4())[52] == bit_of(131u8, 4));
    assert(shift_add_mul(alpha_spec(), alpha_pow_4(), 53) =~= acc_4_53());
}

proof fn lemma_acc_4_54()
    ensures
        shift_add_mul(alpha_spec(), alpha_pow_4(), 54) == acc_4_54(),
{
    lemma_acc_4_53();
    lemma_alpha_x_53();
    lemma_alpha_byte_facts();
    reveal(bytes_p_4_54);
    reveal(alpha_pow_4);
    reveal(acc_4_53);
    reveal(acc_4_54);
    reveal(alpha_x_53);
    assert(bits_of_bytes(alpha_pow_4())[53] == bit_of(131u8, 5));
    assert(shift_add_mul(alpha_spec(), alpha_pow_4(), 54) =~= acc_4_54());
}

proof fn lemma_acc_4_55()
    ensures
        shift_add_mul(alpha_spec(), alpha_pow_4(), 55) == acc_4_55(),
{
    lemma_acc_4_54();
    lemma_alpha_x_54();
    lemma_alpha_byte_facts();
    reveal(bytes_p_4_55);
    reveal(alpha_pow_4);
    reveal(acc_4_54);
    reveal(acc_4_55);
    reveal(alpha_x_54);
    assert(bits_of_bytes(alpha_pow_4())[54] == bit_of(131u8, 6));
    assert(shift_add_mul(alpha_spec(), alpha_pow_4(), 55) =~= acc_4_55());
}

proof fn lemma_acc_4_56()
    ensures
        shift_add_mul(alpha_spec(), alpha_pow_4(), 56) == acc_4_56(),
{
    lemma_acc_4_55();
    lemma_alpha_x_55();
    lemma_alpha_byte_facts();
    reveal(bytes_p_4_56);
    reveal(alpha_pow_4);
    reveal(acc_4_55);
    reveal(acc_4_56);
    reveal(alpha_x_55);
    assert(bits_of_bytes(alpha_pow_4())[55] == bit_of(131u8, 7));
    assert(shift_add_mul(alpha_spec(), alpha_pow_4(), 56) =~= acc_4_56());
}

proof fn lemma_acc_4_57()
    ensures
        shift_add_mul(alpha_spec(), alpha_pow_4(), 57) == acc_4_57(),
{
    lemma_acc_4_56();
    lemma_alpha_x_56();
    lemma_alpha_byte_facts();
    reveal(bytes_p_4_57);
    reveal(alpha_pow_4);
    reveal(acc_4_56);
    reveal(acc_4_57);
    reveal(alpha_x_56);
    assert(bits_of_bytes(alpha_pow_4())[56] == bit_of(107u8, 0));
    assert(shift_add_mul(alpha_spec(), alpha_pow_4(), 57) =~= acc_4_57());
}

proof fn lemma_acc_4_58()
    ensures
        shift_add_mul(alpha_spec(), alpha_pow_4(), 58) == acc_4_58(),
{
    lemma_acc_4_57();
    lemma_alpha_x_57();
    lemma_alpha_byte_facts();
    reveal(bytes_p_4_58);
    reveal(alpha_pow_4);
    reveal(acc_4_57);
    reveal(acc_4_58);
    reveal(alpha_x_57);
    assert(bits_of_bytes(alpha_pow_4())[57] == bit_of(107u8, 1));
    assert(shift_add_mul(alpha_spec(), alpha_pow_4(), 58) =~= acc_4_58());
}

proof fn lemma_acc_4_59()
    ensures
        shift_add_mul(alpha_spec(), alpha_pow_4(), 59) == acc_4_59(),
{
    lemma_acc_4_58();
    lemma_alpha_x_58();
    lemma_alpha_byte_facts();
    reveal(bytes_p_4_59);
    reveal(alpha_pow_4);
    reveal(acc_4_58);
    reveal(acc_4_59);
    reveal(alpha_x_58);
    assert(bits_of_bytes(alpha_pow_4())[58] == bit_of(107u8, 2));
    assert(shift_add_mul(alpha_spec(), alpha_pow_4(), 59) =~= acc_4_59());
}

proof fn lemma_acc_4_60()
    ensures
        shift_add_mul(alpha_spec(), alpha_pow_4(), 60) == acc_4_60(),
{
    lemma_acc_4_59();
    lemma_alpha_x_59();
    lemma_alpha_byte_facts();
    reveal(bytes_p_4_60);
    reveal(alpha_pow_4);
    reveal(acc_4_59);
    reveal(acc_4_60);
    reveal(alpha_x_59);
    assert(bits_of_bytes(alpha_pow_4())[59] == bit_of(107u8, 3));
    assert(shift_add_mul(alpha_spec(), alpha_pow_4(), 60) =~= acc_4_60());
}

proof fn lemma_acc_4_61()
    ensures
        shift_add_mul(alpha_spec(), alpha_pow_4(), 61) == acc_4_61(),
{
    lemma_acc_4_60();
    lemma_alpha_x_60();
    lemma_alpha_byte_facts();
    reveal(bytes_p_4_61);
    reveal(alpha_pow_4);
    reveal(acc_4_60);
    reveal(acc_4_61);
    reveal(alpha_x_60);
    assert(bits_of_bytes(alpha_pow_4())[60] == bit_of(107u8, 4));
    assert(shift_add_mul(alpha_spec(), alpha_pow_4(), 61) =~= acc_4_61());
}

proof fn lemma_acc_4_62()
    ensures
        shift_add_mul(alpha_spec(), alpha_pow_4(), 62) == acc_4_62(),
{
    lemma_acc_4_61();
    lemma_alpha_x_61();
    lemma_alpha_byte_facts();
    reveal(bytes_p_4_62);
    reveal(alpha_pow_4);
    reveal(acc_4_61);
    reveal(acc_4_62);
    reveal(alpha_x_61);
    assert(bits_of_bytes(alpha_pow_4())[61] == bit_of(107u8, 5));
    assert(shift_add_mul(alpha_spec(), alpha_pow_4(), 62) =~= acc_4_62());
}

proof fn lemma_acc_4_63()
    ensures
        shift_add_mul(alpha_spec(), alpha_pow_4(), 63) == acc_4_63(),
{
    lemma_acc_4_62();
    lemma_alpha_x_62();
    lemma_alpha_byte_facts();
    reveal(bytes_p_4_63);
    reveal(alpha_pow_4);
    reveal(acc_4_62);
    reveal(acc_4_63);
    reveal(alpha_x_62);
    assert(bits_of_bytes(alpha_pow_4())[62] == bit_of(107u8, 6));
    assert(shift_add_mul(alpha_spec(), alpha_pow_4(), 63) =~= acc_4_63());
}

proof fn lemma_acc_4_64()
    ensures
        shift_add_mul(alpha_spec(), alpha_pow_4(), 64) == acc_4_64(),
{
    lemma_acc_4_63();
    lemma_alpha_x_63();
    lemma_alpha_byte_facts();
    reveal(bytes_p_4_64);
    reveal(alpha_pow_4);
    reveal(acc_4_63);
    reveal(acc_4_64);
    reveal(alpha_x_63);
    assert(bits_of_bytes(alpha_pow_4())[63] == bit_of(107u8, 7));
    assert(shift_add_mul(alpha_spec(), alpha_pow_4(), 64) =~= acc_4_64());
}

proof fn lemma_acc_4_65()
    ensures
        shift_add_mul(alpha_spec(), alpha_pow_4(), 65) == acc_4_65(),
{
    lemma_acc_4_64();
    lemma_alpha_x_64();
    lemma_alpha_byte_facts();
    reveal(bytes_p_4_65);
    reveal(alpha_pow_4);
    reveal(acc_4_64);
    reveal(acc_4_65);
    reveal(alpha_x_64);
    assert(bits_of_bytes(alpha_pow_4())[64] == bit_of(254u8, 0));
    assert(shift_add_mul(alpha_spec(), alpha_pow_4(), 65) =~= acc_4_65());
}

proof fn lemma_acc_4_66()
    ensures
        shift_add_mul(alpha_spec(), alpha_pow_4(), 66) == acc_4_66(),
{
    lemma_acc_4_65();
    lemma_alpha_x_65();
    lemma_alpha_byte_facts();
    reveal(bytes_p_4_66);
    reveal(alpha_pow_4);
    reveal(acc_4_65);
    reveal(acc_4_66);
    reveal(alpha_x_65);
    assert(bits_of_bytes(alpha_pow_4())[65] == bit_of(254u8, 1));
    assert(shift_add_mul(alpha_spec(), alpha_pow_4(), 66) =~= acc_4_66());
}

proof fn lemma_acc_4_67()
    ensures
        shift_add_mul(alpha_spec(), alpha_pow_4(), 67) == acc_4_67(),
{
    lemma_acc_4_66();
    lemma_alpha_x_66();
    lemma_alpha_byte_facts();
    reveal(bytes_p_4_67);
    reveal(alpha_pow_4);
    reveal(acc_4_66);
    reveal(acc_4_67);
    reveal(alpha_x_66);
    assert(bits_of_bytes(alpha_pow_4())[66] == bit_of(254u8, 2));
    assert(shift_add_mul(alpha_spec(), alpha_pow_4(), 67) =~= acc_4_67());
}

proof fn lemma_acc_4_68()
    ensures
        shift_add_mul(alpha_spec(), alpha_pow_4(), 68) == acc_4_68(),
{
    lemma_acc_4_67();
    lemma_alpha_x_67();
    lemma_alpha_byte_facts();
    reveal(bytes_p_4_68);
    reveal(alpha_pow_4);
    reveal(acc_4_67);
    reveal(acc_4_68);
    reveal(alpha_x_67);
    assert(bits_of_bytes(alpha_pow_4())[67] == bit_of(254u8, 3));
    assert(shift_add_mul(alpha_spec(), alpha_pow_4(), 68) =~= acc_4_68());
}

proof fn lemma_acc_4_69()
    ensures
        shift_add_mul(alpha_spec(), alpha_pow_4(), 69) == acc_4_69(),
{
    lemma_acc_4_68();
    lemma_alpha_x_68();
    lemma_alpha_byte_facts();
    reveal(bytes_p_4_69);
    reveal(alpha_pow_4);
    reveal(acc_4_68);
    reveal(acc_4_69);
    reveal(alpha_x_68);
    assert(bits_of_bytes(alpha_pow_4())[68] == bit_of(254u8, 4));
    assert(shift_add_mul(alpha_spec(), alpha_pow_4(), 69) =~= acc_4_69());
}

proof fn lemma_acc_4_70()
    ensures
        shift_add_mul(alpha_spec(), alpha_pow_4(), 70) == acc_4_70(),
{
    lemma_acc_4_69();
    lemma_alpha_x_69();
    lemma_alpha_byte_facts();
    reveal(bytes_p_4_70);
    reveal(alpha_pow_4);
    reveal(acc_4_69);
    reveal(acc_4_70);
    reveal(alpha_x_69);
    assert(bits_of_bytes(alpha_pow_4())[69] == bit_of(254u8, 5));
    assert(shift_add_mul(alpha_spec(), alpha_pow_4(), 70) =~= acc_4_70());
}

proof fn lemma_acc_4_71()
    ensures
        shift_add_mul(alpha_spec(), alpha_pow_4(), 71) == acc_4_71(),
{
    lemma_acc_4_70();
    lemma_alpha_x_70();
    lemma_alpha_byte_facts();
    reveal(bytes_p_4_71);
    reveal(alpha_pow_4);
    reveal(acc_4_70);
    reveal(acc_4_71);
    reveal(alpha_x_70);
    assert(bits_of_bytes(alpha_pow_4())[70] == bit_of(254u8, 6));
    assert(shift_add_mul(alpha_spec(), alpha_pow_4(), 71) =~= acc_4_71());
}

proof fn lemma_acc_4_72()
    ensures
        shift_add_mul(alpha_spec(), alpha_pow_4(), 72) == acc_4_72(),
{
    lemma_acc_4_71();
    lemma_alpha_x_71();
    lemma_alpha_byte_facts();
    reveal(bytes_p_4_72);
    reveal(alpha_pow_4);
    reveal(acc_4_71);
    reveal(acc_4_72);
    reveal(alpha_x_71);
    assert(bits_of_bytes(alpha_pow_4())[71] == bit_of(254u8, 7));
    assert(shift_add_mul(alpha_spec(), alpha_pow_4(), 72) =~= acc_4_72());
}

proof fn lemma_acc_4_73()
    ensures
        shift_add_mul(alpha_spec(), alpha_pow_4(), 73) == acc_4_73(),
{
    lemma_acc_4_72();
    lemma_alpha_x_72();
    lemma_alpha_byte_facts();
    reveal(bytes_p_4_73);
    reveal(alpha_pow_4);
    reveal(acc_4_72);
    reveal(acc_4_73);
    reveal(alpha_x_72);
    assert(bits_of_bytes(alpha_pow_4())[72] == bit_of(34u8, 0));
    assert(shift_add_mul(alpha_spec(), alpha_pow_4(), 73) =~= acc_4_73());
}

proof fn lemma_acc_4_74()
    ensures
        shift_add_mul(alpha_spec(), alpha_pow_4(), 74) == acc_4_74(),
{
    lemma_acc_4_73();
    lemma_alpha_x_73();
    lemma_alpha_byte_facts();
    reveal(bytes_p_4_74);
    reveal(alpha_pow_4);
    reveal(acc_4_73);
    reveal(acc_4_74);
    reveal(alpha_x_73);
    assert(bits_of_bytes(alpha_pow_4())[73] == bit_of(34u8, 1));
    assert(shift_add_mul(alpha_spec(), alpha_pow_4(), 74) =~= acc_4_74());
}

proof fn lemma_acc_4_75()
    ensures
        shift_add_mul(alpha_spec(), alpha_pow_4(), 75) == acc_4_75(),
{
    lemma_acc_4_74();
    lemma_alpha_x_74();
    lemma_alpha_byte_facts();
    reveal(bytes_p_4_75);
    reveal(alpha_pow_4);
    reveal(acc_4_74);
    reveal(acc_4_75);
    reveal(alpha_x_74);
    assert(bits_of_bytes(alpha_pow_4())[74] == bit_of(34u8, 2));
    assert(shift_add_mul(alpha_spec(), alpha_pow_4(), 75) =~= acc_4_75());
}

proof fn lemma_acc_4_76()
    ensures
        shift_add_mul(alpha_spec(), alpha_pow_4(), 76) == acc_4_76(),
{
    lemma_acc_4_75();
    lemma_alpha_x_75();
    lemma_alpha_byte_facts();
    reveal(bytes_p_4_76);
    reveal(alpha_pow_4);
    reveal(acc_4_75);
    reveal(acc_4_76);
    reveal(alpha_x_75);
    assert(bits_of_bytes(alpha_pow_4())[75] == bit_of(34u8, 3));
    assert(shift_add_mul(alpha_spec(), alpha_pow_4(), 76) =~= acc_4_76());
}

proof fn lemma_acc_4_77()
    ensures
        shift_add_mul(alpha_spec(), alpha_pow_4(), 77) == acc_4_77(),
{
    lemma_acc_4_76();
    lemma_alpha_x_76();
    lemma_alpha_byte_facts();
    reveal(bytes_p_4_77);
    reveal(alpha_pow_4);
    reveal(acc_4_76);
    reveal(acc_4_77);
    reveal(alpha_x_76);
    assert(bits_of_bytes(alpha_pow_4())[76] == bit_of(34u8, 4));
    assert(shift_add_mul(alpha_spec(), alpha_pow_4(), 77) =~= acc_4_77());
}

proof fn lemma_acc_4_78()
    ensures
        shift_add_mul(alpha_spec(), alpha_pow_4(), 78) == acc_4_78(),
{
    lemma_acc_4_77();
    lemma_alpha_x_77();
    lemma_alpha_byte_facts();
    reveal(bytes_p_4_78);
    reveal(alpha_pow_4);
    reveal(acc_4_77);
    reveal(acc_4_78);
    reveal(alpha_x_77);
    assert(bits_of_bytes(alpha_pow_4())[77] == bit_of(34u8, 5));
    assert(shift_add_mul(alpha_spec(), alpha_pow_4(), 78) =~= acc_4_78());
}

proof fn lemma_acc_4_79()
    ensures
        shift_add_mul(alpha_spec(), alpha_pow_4(), 79) == acc_4_79(),
{
    lemma_acc_4_78();
    lemma_alpha_x_78();
    lemma_alpha_byte_facts();
    reveal(bytes_p_4_79);
    reveal(alpha_pow_4);
    reveal(acc_4_78);
    reveal(acc_4_79);
    reveal(alpha_x_78);
    assert(bits_of_bytes(alpha_pow_4())[78] == bit_of(34u8, 6));
    assert(shift_add_mul(alpha_spec(), alpha_pow_4(), 79) =~= acc_4_79());
}

proof fn lemma_acc_4_80()
    ensures
        shift_add_mul(alpha_spec(), alpha_pow_4(), 80) == acc_4_80(),
{
    lemma_acc_4_79();
    lemma_alpha_x_79();
    lemma_alpha_byte_facts();
    reveal(bytes_p_4_80);
    reveal(alpha_pow_4);
    reveal(acc_4_79);
    reveal(acc_4_80);
    reveal(alpha_x_79);
    assert(bits_of_bytes(alpha_pow_4())[79] == bit_of(34u8, 7));
    assert(shift_add_mul(alpha_spec(), alpha_pow_4(), 80) =~= acc_4_80());
}

proof fn lemma_acc_4_81()
    ensures
        shift_add_mul(alpha_spec(), alpha_pow_4(), 81) == acc_4_81(),
{
    lemma_acc_4_80();
    lemma_alpha_x_80();
    lemma_alpha_byte_facts();
    reveal(bytes_p_4_81);
    reveal(alpha_pow_4);
    reveal(acc_4_80);
    reveal(acc_4_81);
    reveal(alpha_x_80);
    assert(bits_of_bytes(alpha_pow_4())[80] == bit_of(162u8, 0));
    assert(shift_add_mul(alpha_spec(), alpha_pow_4(), 81) =~= acc_4_81());
}

proof fn lemma_acc_4_82()
    ensures
        shift_add_mul(alpha_spec(), alpha_pow_4(), 82) == acc_4_82(),
{
    lemma_acc_4_81();
    lemma_alpha_x_81();
    lemma_alpha_byte_facts();
    reveal(bytes_p_4_82);
    reveal(alpha_pow_4);
    reveal(acc_4_81);
    reveal(acc_4_82);
    reveal(alpha_x_81);
    assert(bits_of_bytes(alpha_pow_4())[81] == bit_of(162u8, 1));
    assert(shift_add_mul(alpha_spec(), alpha_pow_4(), 82) =~= acc_4_82());
}

proof fn lemma_acc_4_83()
    ensures
        shift_add_mul(alpha_spec(), alpha_pow_4(), 83) == acc_4_83(),
{
    lemma_acc_4_82();
    lemma_alpha_x_82();
    lemma_alpha_byte_facts();
    reveal(bytes_p_4_83);
    reveal(alpha_pow_4);
    reveal(acc_4_82);
    reveal(acc_4_83);
    reveal(alpha_x_82);
    assert(bits_of_bytes(alpha_pow_4())[82] == bit_of(162u8, 2));
    assert(shift_add_mul(alpha_spec(), alpha_pow_4(), 83) =~= acc_4_83());
}

proof fn lemma_acc_4_84()
    ensures
        shift_add_mul(alpha_spec(), alpha_pow_4(), 84) == acc_4_84(),
{
    lemma_acc_4_83();
    lemma_alpha_x_83();
    lemma_alpha_byte_facts();
    reveal(bytes_p_4_84);
    reveal(alpha_pow_4);
    reveal(acc_4_83);
    reveal(acc_4_84);
    reveal(alpha_x_83);
    assert(bits_of_bytes(alpha_pow_4())[83] == bit_of(162u8, 3));
    assert(shift_add_mul(alpha_spec(), alpha_pow_4(), 84) =~= acc_4_84());
}

proof fn lemma_acc_4_85()
    ensures
        shift_add_mul(alpha_spec(), alpha_pow_4(), 85) == acc_4_85(),
{
    lemma_acc_4_84();
    lemma_alpha_x_84();
    lemma_alpha_byte_facts();
    reveal(bytes_p_4_85);
    reveal(alpha_pow_4);
    reveal(acc_4_84);
    reveal(acc_4_85);
    reveal(alpha_x_84);
    assert(bits_of_bytes(alpha_pow_4())[84] == bit_of(162u8, 4));
    assert(shift_add_mul(alpha_spec(), alpha_pow_4(), 85) =~= acc_4_85());
}

proof fn lemma_acc_4_86()
    ensures
        shift_add_mul(alpha_spec(), alpha_pow_4(), 86) == acc_4_86(),
{
    lemma_acc_4_85();
    lemma_alpha_x_85();
    lemma_alpha_byte_facts();
    reveal(bytes_p_4_86);
    reveal(alpha_pow_4);
    reveal(acc_4_85);
    reveal(acc_4_86);
    reveal(alpha_x_85);
    assert(bits_of_bytes(alpha_pow_4())[85] == bit_of(162u8, 5));
    assert(shift_add_mul(alpha_spec(), alpha_pow_4(), 86) =~= acc_4_86());
}

proof fn lemma_acc_4_87()
    ensures
        shift_add_mul(alpha_spec(), alpha_pow_4(), 87) == acc_4_87(),
{
    lemma_acc_4_86();
    lemma_alpha_x_86();
    lemma_alpha_byte_facts();
    reveal(bytes_p_4_87);
    reveal(alpha_pow_4);
    reveal(acc_4_86);
    reveal(acc_4_87);
    reveal(alpha_x_86);
    assert(bits_of_bytes(alpha_pow_4())[86] == bit_of(162u8, 6));
    assert(shift_add_mul(alpha_spec(), alpha_pow_4(), 87) =~= acc_4_87());
}

proof fn lemma_acc_4_88()
    ensures
        shift_add_mul(alpha_spec(), alpha_pow_4(), 88) == acc_4_88(),
{
    lemma_acc_4_87();
    lemma_alpha_x_87();
    lemma_alpha_byte_facts();
    reveal(bytes_p_4_88);
    reveal(alpha_pow_4);
    reveal(acc_4_87);
    reveal(acc_4_88);
    reveal(alpha_x_87);
    assert(bits_of_bytes(alpha_pow_4())[87] == bit_of(162u8, 7));
    assert(shift_add_mul(alpha_spec(), alpha_pow_4(), 88) =~= acc_4_88());
}

proof fn lemma_acc_4_89()
    ensures
        shift_add_mul(alpha_spec(), alpha_pow_4(), 89) == acc_4_89(),
{
    lemma_acc_4_88();
    lemma_alpha_x_88();
    lemma_alpha_byte_facts();
    reveal(bytes_p_4_89);
    reveal(alpha_pow_4);
    reveal(acc_4_88);
    reveal(acc_4_89);
    reveal(alpha_x_88);
    assert(bits_of_bytes(alpha_pow_4())[88] == bit_of(64u8, 0));
    assert(shift_add_mul(alpha_spec(), alpha_pow_4(), 89) =~= acc_4_89());
}

proof fn lemma_acc_4_90()
    ensures
        shift_add_mul(alpha_spec(), alpha_pow_4(), 90) == acc_4_90(),
{
    lemma_acc_4_89();
    lemma_alpha_x_89();
    lemma_alpha_byte_facts();
    reveal(bytes_p_4_90);
    reveal(alpha_pow_4);
    reveal(acc_4_89);
    reveal(acc_4_90);
    reveal(alpha_x_89);
    assert(bits_of_bytes(alpha_pow_4())[89] == bit_of(64u8, 1));
    assert(shift_add_mul(alpha_spec(), alpha_pow_4(), 90) =~= acc_4_90());
}

proof fn lemma_acc_4_91()
    ensures
        shift_add_mul(alpha_spec(), alpha_pow_4(), 91) == acc_4_91(),
{
    lemma_acc_4_90();
    lemma_alpha_x_90();
    lemma_alpha_byte_facts();
    reveal(bytes_p_4_91);
    reveal(alpha_pow_4);
    reveal(acc_4_90);
    reveal(acc_4_91);
    reveal(alpha_x_90);
    assert(bits_of_bytes(alpha_pow_4())[90] == bit_of(64u8, 2));
    assert(shift_add_mul(alpha_spec(), alpha_pow_4(), 91) =~= acc_4_91());
}

proof fn lemma_acc_4_92()
    ensures
        shift_add_mul(alpha_spec(), alpha_pow_4(), 92) == acc_4_92(),
{
    lemma_acc_4_91();
    lemma_alpha_x_91();
    lemma_alpha_byte_facts();
    reveal(bytes_p_4_92);
    reveal(alpha_pow_4);
    reveal(acc_4_91);
    reveal(acc_4_92);
    reveal(alpha_x_91);
    assert(bits_of_bytes(alpha_pow_4())[91] == bit_of(64u8, 3));
    assert(shift_add_mul(alpha_spec(), alpha_pow_4(), 92) =~= acc_4_92());
}

proof fn lemma_acc_4_93()
    ensures
        shift_add_mul(alpha_spec(), alpha_pow_4(), 93) == acc_4_93(),
{
    lemma_acc_4_92();
    lemma_alpha_x_92();
    lemma_alpha_byte_facts();
    reveal(bytes_p_4_93);
    reveal(alpha_pow_4);
    reveal(acc_4_92);
    reveal(acc_4_93);
    reveal(alpha_x_92);
    assert(bits_of_bytes(alpha_pow_4())[92] == bit_of(64u8, 4));
    assert(shift_add_mul(alpha_spec(), alpha_pow_4(), 93) =~= acc_4_93());
}

proof fn lemma_acc_4_94()
    ensures
        shift_add_mul(alpha_spec(), alpha_pow_4(), 94) == acc_4_94(),
{
    lemma_acc_4_93();
    lemma_alpha_x_93();
    lemma_alpha_byte_facts();
    reveal(bytes_p_4_94);
    reveal(alpha_pow_4);
    reveal(acc_4_93);
    reveal(acc_4_94);
    reveal(alpha_x_93);
    assert(bits_of_bytes(alpha_pow_4())[93] == bit_of(64u8, 5));
    assert(shift_add_mul(alpha_spec(), alpha_pow_4(), 94) =~= acc_4_94());
}

proof fn lemma_acc_4_95()
    ensures
        shift_add_mul(alpha_spec(), alpha_pow_4(), 95) == acc_4_95(),
{
    lemma_acc_4_94();
    lemma_alpha_x_94();
    lemma_alpha_byte_facts();
    reveal(bytes_p_4_95);
    reveal(alpha_pow_4);
    reveal(acc_4_94);
    reveal(acc_4_95);
    reveal(alpha_x_94);
    assert(bits_of_bytes(alpha_pow_4())[94] == bit_of(64u8, 6));
    assert(shift_add_mul(alpha_spec(), alpha_pow_4(), 95) =~= acc_4_95());
}

proof fn lemma_acc_4_96()
    ensures
        shift_add_mul(alpha_spec(), alpha_pow_4(), 96) == acc_4_96(),
{
    lemma_acc_4_95();
    lemma_alpha_x_95();
    lemma_alpha_byte_facts();
    reveal(bytes_p_4_96);
    reveal(alpha_pow_4);
    reveal(acc_4_95);
    reveal(acc_4_96);
    reveal(alpha_x_95);
    assert(bits_of_bytes(alpha_pow_4())[95] == bit_of(64u8, 7));
    assert(shift_add_mul(alpha_spec(), alpha_pow_4(), 96) =~= acc_4_96());
}

proof fn lemma_acc_4_97()
    ensures
        shift_add_mul(alpha_spec(), alpha_pow_4(), 97) == acc_4_97(),
{
    lemma_acc_4_96();
    lemma_alpha_x_96();
    lemma_alpha_byte_facts();
    reveal(bytes_p_4_97);
    reveal(alpha_pow_4);
    reveal(acc_4_96);
    reveal(acc_4_97);
    reveal(alpha_x_96);
    assert(bits_of_bytes(alpha_pow_4())[96] == bit_of(70u8, 0));
    assert(shift_add_mul(alpha_spec(), alpha_pow_4(), 97) =~= acc_4_97());
}

proof fn lemma_acc_4_98()
    ensures
        shift_add_mul(alpha_spec(), alpha_pow_4(), 98) == acc_4_98(),
{
    lemma_acc_4_97();
    lemma_alpha_x_97();
    lemma_alpha_byte_facts();
    reveal(bytes_p_4_98);
    reveal(alpha_pow_4);
    reveal(acc_4_97);
    reveal(acc_4_98);
    reveal(alpha_x_97);
    assert(bits_of_bytes(alpha_pow_4())[97] == bit_of(70u8, 1));
    assert(shift_add_mul(alpha_spec(), alpha_pow_4(), 98) =~= acc_4_98());
}

proof fn lemma_acc_4_99()
    ensures
        shift_add_mul(alpha_spec(), alpha_pow_4(), 99) == acc_4_99(),
{
    lemma_acc_4_98();
    lemma_alpha_x_98();
    lemma_alpha_byte_facts();
    reveal(bytes_p_4_99);
    reveal(alpha_pow_4);
    reveal(acc_4_98);
    reveal(acc_4_99);
    reveal(alpha_x_98);
    assert(bits_of_bytes(alpha_pow_4())[98] == bit_of(70u8, 2));
    assert(shift_add_mul(alpha_spec(), alpha_pow_4(), 99) =~= acc_4_99());
}

proof fn lemma_acc_4_100()
    ensures
        shift_add_mul(alpha_spec(), alpha_pow_4(), 100) == acc_4_100(),
{
    lemma_acc_4_99();
    lemma_alpha_x_99();
    lemma_alpha_byte_facts();
    reveal(bytes_p_4_100);
    reveal(alpha_pow_4);
    reveal(acc_4_99);
    reveal(acc_4_100);
    reveal(alpha_x_99);
    assert(bits_of_bytes(alpha_pow_4())[99] == bit_of(70u8, 3));
    assert(shift_add_mul(alpha_spec(), alpha_pow_4(), 100) =~= acc_4_100());
}

proof fn lemma_acc_4_101()
    ensures
        shift_add_mul(alpha_spec(), alpha_pow_4(), 101) == acc_4_101(),
{
    lemma_acc_4_100();
    lemma_alpha_x_100();
    lemma_alpha_byte_facts();
    reveal(bytes_p_4_101);
    reveal(alpha_pow_4);
    reveal(acc_4_100);
    reveal(acc_4_101);
    reveal(alpha_x_100);
    assert(bits_of_bytes(alpha_pow_4())[100] == bit_of(70u8, 4));
    assert(shift_add_mul(alpha_spec(), alpha_pow_4(), 101) =~= acc_4_101());
}

proof fn lemma_acc_4_102()
    ensures
        shift_add_mul(alpha_spec(), alpha_pow_4(), 102) == acc_4_102(),
{
    lemma_acc_4_101();
    lemma_alpha_x_101();
    lemma_alpha_byte_facts();
    reveal(bytes_p_4_102);
    reveal(alpha_pow_4);
    reveal(acc_4_101);
    reveal(acc_4_102);
    reveal(alpha_x_101);
    assert(bits_of_bytes(alpha_pow_4())[101] == bit_of(70u8, 5));
    assert(shift_add_mul(alpha_spec(), alpha_pow_4(), 102) =~= acc_4_102());
}

proof fn lemma_acc_4_103()
    ensures
        shift_add_mul(alpha_spec(), alpha_pow_4(), 103) == acc_4_103(),
{
    lemma_acc_4_102();
    lemma_alpha_x_102();
    lemma_alpha_byte_facts();
    reveal(bytes_p_4_103);
    reveal(alpha_pow_4);
    reveal(acc_4_102);
    reveal(acc_4_103);
    reveal(alpha_x_102);
    assert(bits_of_bytes(alpha_pow_4())[102] == bit_of(70u8, 6));
    assert(shift_add_mul(alpha_spec(), alpha_pow_4(), 103) =~= acc_4_103());
}

proof fn lemma_acc_4_104()
    ensures
        shift_add_mul(alpha_spec(), alpha_pow_4(), 104) == acc_4_104(),
{
    lemma_acc_4_103();
    lemma_alpha_x_103();
    lemma_alpha_byte_facts();
    reveal(bytes_p_4_104);
    reveal(alpha_pow_4);
    reveal(acc_4_103);
    reveal(acc_4_104);
    reveal(alpha_x_103);
    assert(bits_of_bytes(alpha_pow_4())[103] == bit_of(70u8, 7));
    assert(shift_add_mul(alpha_spec(), alpha_pow_4(), 104) =~= acc_4_104());
}

proof fn lemma_acc_4_105()
    ensures
        shift_add_mul(alpha_spec(), alpha_pow_4(), 105) == acc_4_105(),
{
    lemma_acc_4_104();
    lemma_alpha_x_104();
    lemma_alpha_byte_facts();
    reveal(bytes_p_4_105);
    reveal(alpha_pow_4);
    reveal(acc_4_104);
    reveal(acc_4_105);
    reveal(alpha_x_104);
    assert(bits_of_bytes(alpha_pow_4())[104] == bit_of(54u8, 0));
    assert(shift_add_mul(alpha_spec(), alpha_pow_4(), 105) =~= acc_4_105());
}

proof fn lemma_acc_4_106()
    ensures
        shift_add_mul(alpha_spec(), alpha_pow_4(), 106) == acc_4_106(),
{
    lemma_acc_4_105();
    lemma_alpha_x_105();
    lemma_alpha_byte_facts();
    reveal(bytes_p_4_106);
    reveal(alpha_pow_4);
    reveal(acc_4_105);
    reveal(acc_4_106);
    reveal(alpha_x_105);
    assert(bits_of_bytes(alpha_pow_4())[105] == bit_of(54u8, 1));
    assert(shift_add_mul(alpha_spec(), alpha_pow_4(), 106) =~= acc_4_106());
}

proof fn lemma_acc_4_107()
    ensures
        shift_add_mul(alpha_spec(), alpha_pow_4(), 107) == acc_4_107(),
{
    lemma_acc_4_106();
    lemma_alpha_x_106();
    lemma_alpha_byte_facts();
    reveal(bytes_p_4_107);
    reveal(alpha_pow_4);
    reveal(acc_4_106);
    reveal(acc_4_107);
    reveal(alpha_x_106);
    assert(bits_of_bytes(alpha_pow_4())[106] == bit_of(54u8, 2));
    assert(shift_add_mul(alpha_spec(), alpha_pow_4(), 107) =~= acc_4_107());
}

proof fn lemma_acc_4_108()
    ensures
        shift_add_mul(alpha_spec(), alpha_pow_4(), 108) == acc_4_108(),
{
    lemma_acc_4_107();
    lemma_alpha_x_107();
    lemma_alpha_byte_facts();
    reveal(bytes_p_4_108);
    reveal(alpha_pow_4);
    reveal(acc_4_107);
    reveal(acc_4_108);
    reveal(alpha_x_107);
    assert(bits_of_bytes(alpha_pow_4())[107] == bit_of(54u8, 3));
    assert(shift_add_mul(alpha_spec(), alpha_pow_4(), 108) =~= acc_4_108());
}

proof fn lemma_acc_4_109()
    ensures
        shift_add_mul(alpha_spec(), alpha_pow_4(), 109) == acc_4_109(),
{
    lemma_acc_4_108();
    lemma_alpha_x_108();
    lemma_alpha_byte_facts();
    reveal(bytes_p_4_109);
    reveal(alpha_pow_4);
    reveal(acc_4_108);
    reveal(acc_4_109);
    reveal(alpha_x_108);
    assert(bits_of_bytes(alpha_pow_4())[108] == bit_of(54u8, 4));
    assert(shift_add_mul(alpha_spec(), alpha_pow_4(), 109) =~= acc_4_109());
}

proof fn lemma_acc_4_110()
    ensures
        shift_add_mul(alpha_spec(), alpha_pow_4(), 110) == acc_4_110(),
{
    lemma_acc_4_109();
    lemma_alpha_x_109();
    lemma_alpha_byte_facts();
    reveal(bytes_p_4_110);
    reveal(alpha_pow_4);
    reveal(acc_4_109);
    reveal(acc_4_110);
    reveal(alpha_x_109);
    assert(bits_of_bytes(alpha_pow_4())[109] == bit_of(54u8, 5));
    assert(shift_add_mul(alpha_spec(), alpha_pow_4(), 110) =~= acc_4_110());
}

proof fn lemma_acc_4_111()
    ensures
        shift_add_mul(alpha_spec(), alpha_pow_4(), 111) == acc_4_111(),
{
    lemma_acc_4_110();
    lemma_alpha_x_110();
    lemma_alpha_byte_facts();
    reveal(bytes_p_4_111);
    reveal(alpha_pow_4);
    reveal(acc_4_110);
    reveal(acc_4_111);
    reveal(alpha_x_110);
    assert(bits_of_bytes(alpha_pow_4())[110] == bit_of(54u8, 6));
    assert(shift_add_mul(alpha_spec(), alpha_pow_4(), 111) =~= acc_4_111());
}

proof fn lemma_acc_4_112()
    ensures
        shift_add_mul(alpha_spec(), alpha_pow_4(), 112) == acc_4_112(),
{
    lemma_acc_4_111();
    lemma_alpha_x_111();
    lemma_alpha_byte_facts();
    reveal(bytes_p_4_112);
    reveal(alpha_pow_4);
    reveal(acc_4_111);
    reveal(acc_4_112);
    reveal(alpha_x_111);
    assert(bits_of_bytes(alpha_pow_4())[111] == bit_of(54u8, 7));
    assert(shift_add_mul(alpha_spec(), alpha_pow_4(), 112) =~= acc_4_112());
}

proof fn lemma_acc_4_113()
    ensures
        shift_add_mul(alpha_spec(), alpha_pow_4(), 113) == acc_4_113(),
{
    lemma_acc_4_112();
    lemma_alpha_x_112();
    lemma_alpha_byte_facts();
    reveal(bytes_p_4_113);
    reveal(alpha_pow_4);
    reveal(acc_4_112);
    reveal(acc_4_113);
    reveal(alpha_x_112);
    assert(bits_of_bytes(alpha_pow_4())[112] == bit_of(203u8, 0));
    assert(shift_add_mul(alpha_spec(), alpha_pow_4(), 113) =~= acc_4_113());
}

proof fn lemma_acc_4_114()
    ensures
        shift_add_mul(alpha_spec(), alpha_pow_4(), 114) == acc_4_114(),
{
    lemma_acc_4_113();
    lemma_alpha_x_113();
    lemma_alpha_byte_facts();
    reveal(bytes_p_4_114);
    reveal(alpha_pow_4);
    reveal(acc_4_113);
    reveal(acc_4_114);
    reveal(alpha_x_113);
    assert(bits_of_bytes(alpha_pow_4())[113] == bit_of(203u8, 1));
    assert(shift_add_mul(alpha_spec(), alpha_pow_4(), 114) =~= acc_4_114());
}

proof fn lemma_acc_4_115()
    ensures
        shift_add_mul(alpha_spec(), alpha_pow_4(), 115) == acc_4_115(),
{
    lemma_acc_4_114();
    lemma_alpha_x_114();
    lemma_alpha_byte_facts();
    reveal(bytes_p_4_115);
    reveal(alpha_pow_4);
    reveal(acc_4_114);
    reveal(acc_4_115);
    reveal(alpha_x_114);
    assert(bits_of_bytes(alpha_pow_4())[114] == bit_of(203u8, 2));
    assert(shift_add_mul(alpha_spec(), alpha_pow_4(), 115) =~= acc_4_115());
}

proof fn lemma_acc_4_116()
    ensures
        shift_add_mul(alpha_spec(), alpha_pow_4(), 116) == acc_4_116(),
{
    lemma_acc_4_115();
    lemma_alpha_x_115();
    lemma_alpha_byte_facts();
    reveal(bytes_p_4_116);
    reveal(alpha_pow_4);
    reveal(acc_4_115);
    reveal(acc_4_116);
    reveal(alpha_x_115);
    assert(bits_of_bytes(alpha_pow_4())[115] == bit_of(203u8, 3));
    assert(shift_add_mul(alpha_spec(), alpha_pow_4(), 116) =~= acc_4_116());
}

proof fn lemma_acc_4_117()
    ensures
        shift_add_mul(alpha_spec(), alpha_pow_4(), 117) == acc_4_117(),
{
    lemma_acc_4_116();
    lemma_alpha_x_116();
    lemma_alpha_byte_facts();
    reveal(bytes_p_4_117);
    reveal(alpha_pow_4);
    reveal(acc_4_116);
    reveal(acc_4_117);
    reveal(alpha_x_116);
    assert(bits_of_bytes(alpha_pow_4())[116] == bit_of(203u8, 4));
    assert(shift_add_mul(alpha_spec(), alpha_pow_4(), 117) =~= acc_4_117());
}

proof fn lemma_acc_4_118()
    ensures
        shift_add_mul(alpha_spec(), alpha_pow_4(), 118) == acc_4_118(),
{
    lemma_acc_4_117();
    lemma_alpha_x_117();
    lemma_alpha_byte_facts();
    reveal(bytes_p_4_118);
    reveal(alpha_pow_4);
    reveal(acc_4_117);
    reveal(acc_4_118);
    reveal(alpha_x_117);
    assert(bits_of_bytes(alpha_pow_4())[117] == bit_of(203u8, 5));
    assert(shift_add_mul(alpha_spec(), alpha_pow_4(), 118) =~= acc_4_118());
}

proof fn lemma_acc_4_119()
    ensures
        shift_add_mul(alpha_spec(), alpha_pow_4(), 119) == acc_4_119(),
{
    lemma_acc_4_118();
    lemma_alpha_x_118();
    lemma_alpha_byte_facts();
    reveal(bytes_p_4_119);
    reveal(alpha_pow_4);
    reveal(acc_4_118);
    reveal(acc_4_119);
    reveal(alpha_x_118);
    assert(bits_of_bytes(alpha_pow_4())[118] == bit_of(203u8, 6));
    assert(shift_add_mul(alpha_spec(), alpha_pow_4(), 119) =~= acc_4_119());
}

proof fn lemma_acc_4_120()
    ensures
        shift_add_mul(alpha_spec(), alpha_pow_4(), 120) == acc_4_120(),
{
    lemma_acc_4_119();
    lemma_alpha_x_119();
    lemma_alpha_byte_facts();
    reveal(bytes_p_4_120);
    reveal(alpha_pow_4);
    reveal(acc_4_119);
    reveal(acc_4_120);
    reveal(alpha_x_119);
    assert(bits_of_bytes(alpha_pow_4())[119] == bit_of(203u8, 7));
    assert(shift_add_mul(alpha_spec(), alpha_pow_4(), 120) =~= acc_4_120());
}

proof fn lemma_acc_4_121()
    ensures
        shift_add_mul(alpha_spec(), alpha_pow_4(), 121) == acc_4_121(),
{
    lemma_acc_4_120();
    lemma_alpha_x_120();
    lemma_alpha_byte_facts();
    reveal(bytes_p_4_121);
    reveal(alpha_pow_4);
    reveal(acc_4_120);
    reveal(acc_4_121);
    reveal(alpha_x_120);
    assert(bits_of_bytes(alpha_pow_4())[120] == bit_of(13u8, 0));
    assert(shift_add_mul(alpha_spec(), alpha_pow_4(), 121) =~= acc_4_121());
}

proof fn lemma_acc_4_122()
    ensures
        shift_add_mul(alpha_spec(), alpha_pow_4(), 122) == acc_4_122(),
{
    lemma_acc_4_121();
    lemma_alpha_x_121();
    lemma_alpha_byte_facts();
    reveal(bytes_p_4_122);
    reveal(alpha_pow_4);
    reveal(acc_4_121);
    reveal(acc_4_122);
    reveal(alpha_x_121);
    assert(bits_of_bytes(alpha_pow_4())[121] == bit_of(13u8, 1));
    assert(shift_add_mul(alpha_spec(), alpha_pow_4(), 122) =~= acc_4_122());
}

proof fn lemma_acc_4_123()
    ensures
        shift_add_mul(alpha_spec(), alpha_pow_4(), 123) == acc_4_123(),
{
    lemma_acc_4_122();
    lemma_alpha_x_122();
    lemma_alpha_byte_facts();
    reveal(bytes_p_4_123);
    reveal(alpha_pow_4);
    reveal(acc_4_122);
    reveal(acc_4_123);
    reveal(alpha_x_122);
    assert(bits_of_bytes(alpha_pow_4())[122] == bit_of(13u8, 2));
    assert(shift_add_mul(alpha_spec(), alpha_pow_4(), 123) =~= acc_4_123());
}

proof fn lemma_acc_4_124()
    ensures
        shift_add_mul(alpha_spec(), alpha_pow_4(), 124) == acc_4_124(),
{
    lemma_acc_4_123();
    lemma_alpha_x_123();
    lemma_alpha_byte_facts();
    reveal(bytes_p_4_124);
    reveal(alpha_pow_4);
    reveal(acc_4_123);
    reveal(acc_4_124);
    reveal(alpha_x_123);
    assert(bits_of_bytes(alpha_pow_4())[123] == bit_of(13u8, 3));
    assert(shift_add_mul(alpha_spec(), alpha_pow_4(), 124) =~= acc_4_124());
}

proof fn lemma_acc_4_125()
    ensures
        shift_add_mul(alpha_spec(), alpha_pow_4(), 125) == acc_4_125(),
{
    lemma_acc_4_124();
    lemma_alpha_x_124();
    lemma_alpha_byte_facts();
    reveal(bytes_p_4_125);
    reveal(alpha_pow_4);
    reveal(acc_4_124);
    reveal(acc_4_125);
    reveal(alpha_x_124);
    assert(bits_of_bytes(alpha_pow_4())[124] == bit_of(13u8, 4));
    assert(shift_add_mul(alpha_spec(), alpha_pow_4(), 125) =~= acc_4_125());
}

proof fn lemma_acc_4_126()
    ensures
        shift_add_mul(alpha_spec(), alpha_pow_4(), 126) == acc_4_126(),
{
    lemma_acc_4_125();
    lemma_alpha_x_125();
    lemma_alpha_byte_facts();
    reveal(bytes_p_4_126);
    reveal(alpha_pow_4);
    reveal(acc_4_125);
    reveal(acc_4_126);
    reveal(alpha_x_125);
    assert(bits_of_bytes(alpha_pow_4())[125] == bit_of(13u8, 5));
    assert(shift_add_mul(alpha_spec(), alpha_pow_4(), 126) =~= acc_4_126());
}

proof fn lemma_acc_4_127()
    ensures
        shift_add_mul(alpha_spec(), alpha_pow_4(), 127) == acc_4_127(),
{
    lemma_acc_4_126();
    lemma_alpha_x_126();
    lemma_alpha_byte_facts();
    reveal(bytes_p_4_127);
    reveal(alpha_pow_4);
    reveal(acc_4_126);
    reveal(acc_4_127);
    reveal(alpha_x_126);
    assert(bits_of_bytes(alpha_pow_4())[126] == bit_of(13u8, 6));
    assert(shift_add_mul(alpha_spec(), alpha_pow_4(), 127) =~= acc_4_127());
}

proof fn lemma_acc_4_128()
    ensures
        shift_add_mul(alpha_spec(), alpha_pow_4(), 128) == acc_4_128(),
{
    lemma_acc_4_127();
    lemma_alpha_x_127();
    lemma_alpha_byte_facts();
    reveal(bytes_p_4_128);
    reveal(alpha_pow_4);
    reveal(acc_4_127);
    reveal(acc_4_128);
    reveal(alpha_x_127);
    assert(bits_of_bytes(alpha_pow_4())[127] == bit_of(13u8, 7));
    assert(shift_add_mul(alpha_spec(), alpha_pow_4(), 128) =~= acc_4_128());
}

#[verifier::opaque]
spec fn acc_5_0() -> Seq<u8> {
    seq![0u8, 0u8, 0u8, 0u8, 0u8, 0u8, 0u8, 0u8, 0u8, 0u8, 0u8, 0u8, 0u8, 0u8, 0u8, 0u8]
}

#[verifier::opaque]
spec fn acc_5_1() -> Seq<u8> {
    seq![0u8, 0u8, 0u8, 0u8, 0u8, 0u8, 0u8, 0u8, 0u8, 0u8, 0u8, 0u8, 0u8, 0u8, 0u8, 0u8]
}

#[verifier::opaque]
spec fn acc_5_2() -> Seq<u8> {
    seq![0u8, 0u8, 0u8, 0u8, 0u8, 0u8, 0u8, 0u8, 0u8, 0u8, 0u8, 0u8, 0u8, 0u8, 0u8, 0u8]
}

#[verifier::opaque]
spec fn acc_5_3() -> Seq<u8> {
    seq![52u8, 56u8, 131u8, 85u8, 177u8, 162u8, 255u8, 132u8, 114u8, 104u8, 94u8, 166u8, 86u8, 21u8, 246u8, 20u8]
}

#[verifier::opaque]
spec fn acc_5_4() -> Seq<u8> {
    seq![52u8, 56u8, 131u8, 85u8, 177u8, 162u8, 255u8, 132u8, 114u8, 104u8, 94u8, 166u8, 86u8, 21u8, 246u8, 20u8]
}

#[verifier::opaque]
spec fn acc_5_5() -> Seq<u8> {
    seq![228u8, 216u8, 143u8, 3u8, 116u8, 40u8, 1u8, 151u8, 184u8, 201u8, 39u8, 63u8, 12u8, 64u8, 46u8, 71u8]
}

#[verifier::opaque]
spec fn acc_5_6() -> Seq<u8> {
    seq![68u8, 25u8, 150u8, 175u8, 254u8, 61u8, 252u8, 176u8, 44u8, 138u8, 212u8, 13u8, 185u8, 234u8, 158u8, 224u8]
}

#[verifier::opaque]
spec fn acc_5_7() -> Seq<u8> {
    seq![68u8, 25u8, 150u8, 175u8, 254u8, 61u8, 252u8, 176u8, 44u8, 138u8, 212u8, 13u8, 185u8, 234u8, 158u8, 224u8]
}

#[verifier::opaque]
spec fn acc_5_8() -> Seq<u8> {
    seq![202u8, 30u8, 241u8, 31u8, 212u8, 107u8, 8u8, 47u8, 124u8, 132u8, 25u8, 198u8, 109u8, 64u8, 92u8, 126u8]
}

#[verifier::opaque]
spec fn acc_5_9() -> Seq<u8> {
    seq![202u8, 30u8, 241u8, 31u8, 212u8, 107u8, 8u8, 47u8, 124u8, 132u8, 25u8, 198u8, 109u8, 64u8, 92u8, 126u8]
}

#[verifier::opaque]
spec fn acc_5_10() -> Seq<u8> {
    seq![252u8, 1u8, 109u8, 222u8, 126u8, 51u8, 217u8, 80u8, 62u8, 189u8, 45u8, 233u8, 62u8, 235u8, 86u8, 5u8]
}

#[verifier::opaque]
spec fn acc_5_11() -> Seq<u8> {
    seq![252u8, 1u8, 109u8, 222u8, 126u8, 51u8, 217u8, 80u8, 62u8, 189u8, 45u8, 233u8, 62u8, 235u8, 86u8, 5u8]
}

#[verifier::opaque]
spec fn acc_5_12() -> Seq<u8> {
    seq![252u8, 1u8, 109u8, 222u8, 126u8, 51u8, 217u8, 80u8, 62u8, 189u8, 45u8, 233u8, 62u8, 235u8, 86u8, 5u8]
}

#[verifier::opaque]
spec fn acc_5_13() -> Seq<u8> {
    seq![252u8, 1u8, 109u8, 222u8, 126u8, 51u8, 217u8, 80u8, 62u8, 189u8, 45u8, 233u8, 62u8, 235u8, 86u8, 5u8]
}

#[verifier::opaque]
spec fn acc_5_14() -> Seq<u8> {
    seq![252u8, 1u8, 109u8, 222u8, 126u8, 51u8, 217u8, 80u8, 62u8, 189u8, 45u8, 233u8, 62u8, 235u8, 86u8, 5u8]
}

#[verifier::opaque]
spec fn acc_5_15() -> Seq<u8> {
    seq![252u8, 1u8, 109u8, 222u8, 126u8, 51u8, 217u8, 80u8, 62u8, 189u8, 45u8, 233u8, 62u8, 235u8, 86u8, 5u8]
}

#[verifier::opaque]
spec fn acc_5_16() -> Seq<u8> {
    seq![38u8, 195u8, 106u8, 185u8, 206u8, 25u8, 143u8, 164u8, 161u8, 237u8, 35u8, 36u8, 245u8, 63u8, 252u8, 199u8]
}

#[verifier::opaque]
spec fn acc_5_17() -> Seq<u8> {
    seq![21u8, 70u8, 101u8, 119u8, 174u8, 76u8, 35u8, 76u8, 158u8, 76u8, 63u8, 190u8, 98u8, 150u8, 169u8, 66u8]
}

#[verifier::opaque]
spec fn acc_5_18() -> Seq<u8> {
    seq![244u8, 76u8, 122u8, 235u8, 111u8, 230u8, 123u8, 157u8, 225u8, 14u8, 6u8, 138u8, 77u8, 197u8, 2u8, 72u8]
}

#[verifier::opaque]
spec fn acc_5_19() -> Seq<u8> {
    seq![244u8, 76u8, 122u8, 235u8, 111u8, 230u8, 123u8, 157u8, 225u8, 14u8, 6u8, 138u8, 77u8, 197u8, 2u8, 72u8]
}

#[verifier::opaque]
spec fn acc_5_20() -> Seq<u8> {
    seq![112u8, 103u8, 6u8, 155u8, 105u8, 77u8, 25u8, 216u8, 30u8, 7u8, 227u8, 90u8, 241u8, 137u8, 175u8, 98u8]
}

#[verifier::opaque]
spec fn acc_5_21() -> Seq<u8> {
    seq![120u8, 48u8, 254u8, 123u8, 101u8, 27u8, 220u8, 82u8, 224u8, 20u8, 41u8, 251u8, 136u8, 16u8, 245u8, 55u8]
}

#[verifier::opaque]
spec fn acc_5_22() -> Seq<u8> {
    seq![120u8, 48u8, 254u8, 123u8, 101u8, 27u8, 220u8, 82u8, 224u8, 20u8, 41u8, 251u8, 136u8, 16u8, 245u8, 55u8]
}

#[verifier::opaque]
spec fn acc_5_23() -> Seq<u8> {
    seq![120u8, 48u8, 254u8, 123u8, 101u8, 27u8, 220u8, 82u8, 224u8, 20u8, 41u8, 251u8, 136u8, 16u8, 245u8, 55u8]
}

#[verifier::opaque]
spec fn acc_5_24() -> Seq<u8> {
    seq![120u8, 48u8, 254u8, 123u8, 101u8, 27u8, 220u8, 82u8, 224u8, 20u8, 41u8, 251u8, 136u8, 16u8, 245u8, 55u8]
}

#[verifier::opaque]
spec fn acc_5_25() -> Seq<u8> {
    seq![99u8, 66u8, 123u8, 116u8, 171u8, 123u8, 137u8, 254u8, 8u8, 43u8, 136u8, 231u8, 18u8, 135u8, 92u8, 98u8]
}

#[verifier::opaque]
spec fn acc_5_26() -> Seq<u8> {
    seq![85u8, 166u8, 113u8, 107u8, 55u8, 186u8, 35u8, 166u8, 217u8, 84u8, 202u8, 222u8, 38u8, 168u8, 15u8, 201u8]
}

#[verifier::opaque]
spec fn acc_5_27() -> Seq<u8> {
    seq![85u8, 166u8, 113u8, 107u8, 55u8, 186u8, 35u8, 166u8, 217u8, 84u8, 202u8, 222u8, 38u8, 168u8, 15u8, 201u8]
}

#[verifier::opaque]
spec fn acc_5_28() -> Seq<u8> {
    seq![131u8, 55u8, 90u8, 23u8, 71u8, 188u8, 136u8, 196u8, 156u8, 171u8, 195u8, 59u8, 246u8, 20u8, 67u8, 100u8]
}

#[verifier::opaque]
spec fn acc_5_29() -> Seq<u8> {
    seq![168u8, 20u8, 13u8, 239u8, 167u8, 176u8, 222u8, 1u8, 22u8, 85u8, 208u8, 241u8, 87u8, 109u8, 218u8, 62u8]
}

#[verifier::opaque]
spec fn acc_5_30() -> Seq<u8> {
    seq![254u8, 82u8, 163u8, 31u8, 102u8, 169u8, 114u8, 139u8, 3u8, 168u8, 247u8, 101u8, 20u8, 158u8, 232u8, 139u8]
}

#[verifier::opaque]
spec fn acc_5_31() -> Seq<u8> {
    seq![213u8, 222u8, 255u8, 254u8, 229u8, 154u8, 42u8, 158u8, 40u8, 82u8, 184u8, 77u8, 147u8, 120u8, 141u8, 225u8]
}

#[verifier::opaque]
spec fn acc_5_32() -> Seq<u8> {
    seq![213u8, 222u8, 255u8, 254u8, 229u8, 154u8, 42u8, 158u8, 40u8, 82u8, 184u8, 77u8, 147u8, 120u8, 141u8, 225u8]
}

#[verifier::opaque]
spec fn acc_5_33() -> Seq<u8> {
    seq![254u8, 238u8, 141u8, 123u8, 234u8, 84u8, 74u8, 203u8, 132u8, 186u8, 135u8, 236u8, 143u8, 226u8, 26u8, 72u8]
}

#[verifier::opaque]
spec fn acc_5_34() -> Seq<u8> {
    seq![47u8, 142u8, 105u8, 113u8, 245u8, 200u8, 139u8, 97u8, 220u8, 107u8, 248u8, 174u8, 182u8, 214u8, 53u8, 27u8]
}

#[verifier::opaque]
spec fn acc_5_35() -> Seq<u8> {
    seq![141u8, 79u8, 161u8, 100u8, 203u8, 240u8, 8u8, 52u8, 109u8, 201u8, 7u8, 42u8, 196u8, 190u8, 107u8, 189u8]
}

#[verifier::opaque]
spec fn acc_5_36() -> Seq<u8> {
    seq![141u8, 79u8, 161u8, 100u8, 203u8, 240u8, 8u8, 52u8, 109u8, 201u8, 7u8, 42u8, 196u8, 190u8, 107u8, 189u8]
}

#[verifier::opaque]
spec fn acc_5_37() -> Seq<u8> {
    seq![141u8, 79u8, 161u8, 100u8, 203u8, 240u8, 8u8, 52u8, 109u8, 201u8, 7u8, 42u8, 196u8, 190u8, 107u8, 189u8]
}

#[verifier::opaque]
spec fn acc_5_38() -> Seq<u8> {
    seq![6u8, 64u8, 231u8, 202u8, 59u8, 49u8, 17u8, 152u8, 231u8, 220u8, 250u8, 13u8, 80u8, 253u8, 152u8, 143u8]
}

#[verifier::opaque]
spec fn acc_5_39() -> Seq<u8> {
    seq![6u8, 64u8, 231u8, 202u8, 59u8, 49u8, 17u8, 152u8, 231u8, 220u8, 250u8, 13u8, 80u8, 253u8, 152u8, 143u8]
}

#[verifier::opaque]
spec fn acc_5_40() -> Seq<u8> {
    seq![6u8, 64u8, 231u8, 202u8, 59u8, 49u8, 17u8, 152u8, 231u8, 220u8, 250u8, 13u8, 80u8, 253u8, 152u8, 143u8]
}

#[verifier::opaque]
spec fn acc_5_41() -> Seq<u8> {
    seq![217u8, 60u8, 215u8, 184u8, 190u8, 62u8, 223u8, 248u8, 178u8, 112u8, 18u8, 50u8, 241u8, 225u8, 2u8, 24u8]
}

#[verifier::opaque]
spec fn acc_5_42() -> Seq<u8> {
    seq![217u8, 60u8, 215u8, 184u8, 190u8, 62u8, 223u8, 248u8, 178u8, 112u8, 18u8, 50u8, 241u8, 225u8, 2u8, 24u8]
}

#[verifier::opaque]
spec fn acc_5_43() -> Seq<u8> {
    seq![217u8, 60u8, 215u8, 184u8, 190u8, 62u8, 223u8, 248u8, 178u8, 112u8, 18u8, 50u8, 241u8, 225u8, 2u8, 24u8]
}

#[verifier::opaque]
spec fn acc_5_44() -> Seq<u8> {
    seq![61u8, 216u8, 84u8, 41u8, 149u8, 66u8, 175u8, 254u8, 25u8, 18u8, 87u8, 205u8, 248u8, 4u8, 210u8, 164u8]
}

#[verifier::opaque]
spec fn acc_5_45() -> Seq<u8> {
    seq![61u8, 216u8, 84u8, 41u8, 149u8, 66u8, 175u8, 254u8, 25u8, 18u8, 87u8, 205u8, 248u8, 4u8, 210u8, 164u8]
}

#[verifier::opaque]
spec fn acc_5_46() -> Seq<u8> {
    seq![61u8, 216u8, 84u8, 41u8, 149u8, 66u8, 175u8, 254u8, 25u8, 18u8, 87u8, 205u8, 248u8, 4u8, 210u8, 164u8]
}

#[verifier::opaque]
spec fn acc_5_47() -> Seq<u8> {
    seq![134u8, 253u8, 75u8, 165u8, 201u8, 163u8, 44u8, 205u8, 65u8, 7u8, 124u8, 55u8, 183u8, 44u8, 85u8, 66u8]
}

#[verifier::opaque]
spec fn acc_5_48() -> Seq<u8> {
    seq![134u8, 253u8, 75u8, 165u8, 201u8, 163u8, 44u8, 205u8, 65u8, 7u8, 124u8, 55u8, 183u8, 44u8, 85u8, 66u8]
}

#[verifier::opaque]
spec fn acc_5_49() -> Seq<u8> {
    seq![227u8, 106u8, 55u8, 149u8, 187u8, 38u8, 35u8, 3u8, 33u8, 82u8, 208u8, 223u8, 136u8, 141u8, 73u8, 216u8]
}

#[verifier::opaque]
spec fn acc_5_50() -> Seq<u8> {
    seq![174u8, 68u8, 206u8, 245u8, 95u8, 44u8, 60u8, 159u8, 224u8, 248u8, 136u8, 14u8, 247u8, 207u8, 112u8, 236u8]
}

#[verifier::opaque]
spec fn acc_5_51() -> Seq<u8> {
    seq![174u8, 68u8, 206u8, 245u8, 95u8, 44u8, 60u8, 159u8, 224u8, 248u8, 136u8, 14u8, 247u8, 207u8, 112u8, 236u8]
}

#[verifier::opaque]
spec fn acc_5_52() -> Seq<u8> {
    seq![154u8, 253u8, 42u8, 118u8, 206u8, 7u8, 64u8, 239u8, 230u8, 83u8, 234u8, 75u8, 8u8, 198u8, 149u8, 60u8]
}

#[verifier::opaque]
spec fn acc_5_53() -> Seq<u8> {
    seq![154u8, 253u8, 42u8, 118u8, 206u8, 7u8, 64u8, 239u8, 230u8, 83u8, 234u8, 75u8, 8u8, 198u8, 149u8, 60u8]
}

#[verifier::opaque]
spec fn acc_5_54() -> Seq<u8> {
    seq![195u8, 24u8, 184u8, 121u8, 136u8, 169u8, 176u8, 46u8, 255u8, 255u8, 96u8, 94u8, 245u8, 225u8, 1u8, 127u8]
}

#[verifier::opaque]
spec fn acc_5_55() -> Seq<u8> {
    seq![195u8, 24u8, 184u8, 121u8, 136u8, 169u8, 176u8, 46u8, 255u8, 255u8, 96u8, 94u8, 245u8, 225u8, 1u8, 127u8]
}

#[verifier::opaque]
spec fn acc_5_56() -> Seq<u8> {
    seq![195u8, 24u8, 184u8, 121u8, 136u8, 169u8, 176u8, 46u8, 255u8, 255u8, 96u8, 94u8, 245u8, 225u8, 1u8, 127u8]
}

#[verifier::opaque]
spec fn acc_5_57() -> Seq<u8> {
    seq![5u8, 51u8, 47u8, 5u8, 184u8, 219u8, 53u8, 33u8, 49u8, 159u8, 53u8, 242u8, 29u8, 222u8, 160u8, 99u8]
}

#[verifier::opaque]
spec fn acc_5_58() -> Seq<u8> {
    seq![5u8, 51u8, 47u8, 5u8, 184u8, 219u8, 53u8, 33u8, 49u8, 159u8, 53u8, 242u8, 29u8, 222u8, 160u8, 99u8]
}

#[verifier::opaque]
spec fn acc_5_59() -> Seq<u8> {
    seq![29u8, 156u8, 115u8, 247u8, 121u8, 19u8, 32u8, 31u8, 9u8, 28u8, 96u8, 67u8, 191u8, 33u8, 36u8, 17u8]
}

#[verifier::opaque]
spec fn acc_5_60() -> Seq<u8> {
    seq![29u8, 156u8, 115u8, 247u8, 121u8, 19u8, 32u8, 31u8, 9u8, 28u8, 96u8, 67u8, 191u8, 33u8, 36u8, 17u8]
}

#[verifier::opaque]
spec fn acc_5_61() -> Seq<u8> {
    seq![29u8, 156u8, 115u8, 247u8, 121u8, 19u8, 32u8, 31u8, 9u8, 28u8, 96u8, 67u8, 191u8, 33u8, 36u8, 17u8]
}

#[verifier::opaque]
spec fn acc_5_62() -> Seq<u8> {
    seq![84u8, 229u8, 150u8, 101u8, 118u8, 85u8, 142u8, 239u8, 200u8, 5u8, 204u8, 201u8, 170u8, 220u8, 3u8, 133u8]
}

#[verifier::opaque]
spec fn acc_5_63() -> Seq<u8> {
    seq![84u8, 229u8, 150u8, 101u8, 118u8, 85u8, 142u8, 239u8, 200u8, 5u8, 204u8, 201u8, 170u8, 220u8, 3u8, 133u8]
}

#[verifier::opaque]
spec fn acc_5_64() -> Seq<u8> {
    seq![84u8, 229u8, 150u8, 101u8, 118u8, 85u8, 142u8, 239u8, 200u8, 5u8, 204u8, 201u8, 170u8, 220u8, 3u8, 133u8]
}

#[verifier::opaque]
spec fn acc_5_65() -> Seq<u8> {
    seq![0u8, 45u8, 189u8, 242u8, 10u8, 101u8, 252u8, 106u8, 199u8, 203u8, 172u8, 156u8, 6u8, 52u8, 60u8, 36u8]
}

#[verifier::opaque]
spec fn acc_5_66() -> Seq<u8> {
    seq![0u8, 45u8, 189u8, 242u8, 10u8, 101u8, 252u8, 106u8, 199u8, 203u8, 172u8, 156u8, 6u8, 52u8, 60u8, 36u8]
}

#[verifier::opaque]
spec fn acc_5_67() -> Seq<u8> {
    seq![94u8, 13u8, 18u8, 174u8, 248u8, 164u8, 52u8, 127u8, 249u8, 243u8, 47u8, 201u8, 183u8, 150u8, 195u8, 160u8]
}

#[verifier::opaque]
spec fn acc_5_68() -> Seq<u8> {
    seq![94u8, 13u8, 18u8, 174u8, 248u8, 164u8, 52u8, 127u8, 249u8, 243u8, 47u8, 201u8, 183u8, 150u8, 195u8, 160u8]
}

#[verifier::opaque]
spec fn acc_5_69() -> Seq<u8> {
    seq![94u8, 13u8, 18u8, 174u8, 248u8, 164u8, 52u8, 127u8, 249u8, 243u8, 47u8, 201u8, 183u8, 150u8, 195u8, 160u8]
}

#[verifier::opaque]
spec fn acc_5_70() -> Seq<u8> {
    seq![178u8, 13u8, 107u8, 75u8, 106u8, 171u8, 114u8, 209u8, 9u8, 50u8, 54u8, 101u8, 61u8, 131u8, 62u8, 135u8]
}

#[verifier::opaque]
spec fn acc_5_71() -> Seq<u8> {
    seq![178u8, 13u8, 107u8, 75u8, 106u8, 171u8, 114u8, 209u8, 9u8, 50u8, 54u8, 101u8, 61u8, 131u8, 62u8, 135u8]
}

#[verifier::opaque]
spec fn acc_5_72() -> Seq<u8> {
    seq![2u8, 14u8, 143u8, 222u8, 33u8, 149u8, 106u8, 104u8, 203u8, 53u8, 81u8, 213u8, 23u8, 213u8, 202u8, 24u8]
}

#[verifier::opaque]
spec fn acc_5_73() -> Seq<u8> {
    seq![2u8, 14u8, 143u8, 222u8, 33u8, 149u8, 106u8, 104u8, 203u8, 53u8, 81u8, 213u8, 23u8, 213u8, 202u8, 24u8]
}

#[verifier::opaque]
spec fn acc_5_74() -> Seq<u8> {
    seq![204u8, 1u8, 31u8, 137u8, 15u8, 108u8, 10u8, 140u8, 193u8, 42u8, 205u8, 20u8, 189u8, 141u8, 27u8, 103u8]
}

#[verifier::opaque]
spec fn acc_5_75() -> Seq<u8> {
    seq![80u8, 30u8, 63u8, 38u8, 83u8, 158u8, 203u8, 68u8, 212u8, 20u8, 245u8, 151u8, 232u8, 60u8, 185u8, 152u8]
}

#[verifier::opaque]
spec fn acc_5_76() -> Seq<u8> {
    seq![239u8, 33u8, 127u8, 120u8, 234u8, 122u8, 72u8, 213u8, 255u8, 104u8, 133u8, 145u8, 67u8, 94u8, 252u8, 103u8]
}

#[verifier::opaque]
spec fn acc_5_77() -> Seq<u8> {
    seq![22u8, 94u8, 255u8, 196u8, 152u8, 179u8, 79u8, 246u8, 168u8, 144u8, 101u8, 157u8, 21u8, 155u8, 118u8, 153u8]
}

#[verifier::opaque]
spec fn acc_5_78() -> Seq<u8> {
    seq![22u8, 94u8, 255u8, 196u8, 152u8, 179u8, 79u8, 246u8, 168u8, 144u8, 101u8, 157u8, 21u8, 155u8, 118u8, 153u8]
}

#[verifier::opaque]
spec fn acc_5_79() -> Seq<u8> {
    seq![123u8, 160u8, 254u8, 54u8, 82u8, 150u8, 80u8, 122u8, 244u8, 113u8, 230u8, 174u8, 77u8, 142u8, 93u8, 99u8]
}

#[verifier::opaque]
spec fn acc_5_80() -> Seq<u8> {
    seq![38u8, 92u8, 253u8, 210u8, 199u8, 221u8, 110u8, 98u8, 77u8, 179u8, 225u8, 201u8, 253u8, 164u8, 11u8, 151u8]
}

#[verifier::opaque]
spec fn acc_5_81() -> Seq<u8> {
    seq![38u8, 92u8, 253u8, 210u8, 199u8, 221u8, 110u8, 98u8, 77u8, 179u8, 225u8, 201u8, 253u8, 164u8, 11u8, 151u8]
}

#[verifier::opaque]
spec fn acc_5_82() -> Seq<u8> {
    seq![38u8, 92u8, 253u8, 210u8, 199u8, 221u8, 110u8, 98u8, 77u8, 179u8, 225u8, 201u8, 253u8, 164u8, 11u8, 151u8]
}

#[verifier::opaque]
spec fn acc_5_83() -> Seq<u8> {
    seq![38u8, 92u8, 253u8, 210u8, 199u8, 221u8, 110u8, 98u8, 77u8, 179u8, 225u8, 201u8, 253u8, 164u8, 11u8, 151u8]
}

#[verifier::opaque]
spec fn acc_5_84() -> Seq<u8> {
    seq![91u8, 158u8, 194u8, 146u8, 153u8, 100u8, 138u8, 225u8, 220u8, 152u8, 157u8, 185u8, 251u8, 15u8, 105u8, 210u8]
}

#[verifier::opaque]
spec fn acc_5_85() -> Seq<u8> {
    seq![91u8, 158u8, 194u8, 146u8, 153u8, 100u8, 138u8, 225u8, 220u8, 152u8, 157u8, 185u8, 251u8, 15u8, 105u8, 210u8]
}

#[verifier::opaque]
spec fn acc_5_86() -> Seq<u8> {
    seq![91u8, 158u8, 194u8, 146u8, 153u8, 100u8, 138u8, 225u8, 220u8, 152u8, 157u8, 185u8, 251u8, 15u8, 105u8, 210u8]
}

#[verifier::opaque]
spec fn acc_5_87() -> Seq<u8> {
    seq![91u8, 158u8, 194u8, 146u8, 153u8, 100u8, 138u8, 225u8, 220u8, 152u8, 157u8, 185u8, 251u8, 15u8, 105u8, 210u8]
}

#[verifier::opaque]
spec fn acc_5_88() -> Seq<u8> {
    seq![151u8, 187u8, 62u8, 145u8, 125u8, 241u8, 193u8, 223u8, 196u8, 33u8, 95u8, 190u8, 156u8, 191u8, 67u8, 132u8]
}

#[verifier::opaque]
spec fn acc_5_89() -> Seq<u8> {
    seq![151u8, 187u8, 62u8, 145u8, 125u8, 241u8, 193u8, 223u8, 196u8, 33u8, 95u8, 190u8, 156u8, 191u8, 67u8, 132u8]
}

#[verifier::opaque]
spec fn acc_5_90() -> Seq<u8> {
    seq![32u8, 44u8, 206u8, 158u8, 237u8, 166u8, 239u8, 38u8, 164u8, 197u8, 85u8, 161u8, 0u8, 126u8, 233u8, 220u8]
}

#[verifier::opaque]
spec fn acc_5_91() -> Seq<u8> {
    seq![32u8, 44u8, 206u8, 158u8, 237u8, 166u8, 239u8, 38u8, 164u8, 197u8, 85u8, 161u8, 0u8, 126u8, 233u8, 220u8]
}

#[verifier::opaque]
spec fn acc_5_92() -> Seq<u8> {
    seq![123u8, 114u8, 12u8, 161u8, 173u8, 248u8, 86u8, 194u8, 39u8, 84u8, 126u8, 221u8, 112u8, 120u8, 66u8, 190u8]
}

#[verifier::opaque]
spec fn acc_5_93() -> Seq<u8> {
    seq![205u8, 206u8, 136u8, 222u8, 45u8, 68u8, 36u8, 11u8, 32u8, 119u8, 41u8, 37u8, 144u8, 116u8, 20u8, 123u8]
}

#[verifier::opaque]
spec fn acc_5_94() -> Seq<u8> {
    seq![205u8, 206u8, 136u8, 222u8, 45u8, 68u8, 36u8, 11u8, 32u8, 119u8, 41u8, 37u8, 144u8, 116u8, 20u8, 123u8]
}

#[verifier::opaque]
spec fn acc_5_95() -> Seq<u8> {
    seq![205u8, 206u8, 136u8, 222u8, 45u8, 68u8, 36u8, 11u8, 32u8, 119u8, 41u8, 37u8, 144u8, 116u8, 20u8, 123u8]
}

#[verifier::opaque]
spec fn acc_5_96() -> Seq<u8> {
    seq![205u8, 206u8, 136u8, 222u8, 45u8, 68u8, 36u8, 11u8, 32u8, 119u8, 41u8, 37u8, 144u8, 116u8, 20u8, 123u8]
}

#[verifier::opaque]
spec fn acc_5_97() -> Seq<u8> {
    seq![137u8, 3u8, 195u8, 38u8, 42u8, 140u8, 15u8, 156u8, 92u8, 71u8, 91u8, 160u8, 159u8, 186u8, 116u8, 46u8]
}

#[verifier::opaque]
spec fn acc_5_98() -> Seq<u8> {
    seq![137u8, 3u8, 195u8, 38u8, 42u8, 140u8, 15u8, 156u8, 92u8, 71u8, 91u8, 160u8, 159u8, 186u8, 116u8, 46u8]
}

#[verifier::opaque]
spec fn acc_5_99() -> Seq<u8> {
    seq![137u8, 3u8, 195u8, 38u8, 42u8, 140u8, 15u8, 156u8, 92u8, 71u8, 91u8, 160u8, 159u8, 186u8, 116u8, 46u8]
}

#[verifier::opaque]
spec fn acc_5_100() -> Seq<u8> {
    seq![137u8, 3u8, 195u8, 38u8, 42u8, 140u8, 15u8, 156u8, 92u8, 71u8, 91u8, 160u8, 159u8, 186u8, 116u8, 46u8]
}

#[verifier::opaque]
spec fn acc_5_101() -> Seq<u8> {
    seq![137u8, 3u8, 195u8, 38u8, 42u8, 140u8, 15u8, 156u8, 92u8, 71u8, 91u8, 160u8, 159u8, 186u8, 116u8, 46u8]
}

#[verifier::opaque]
spec fn acc_5_102() -> Seq<u8> {
    seq![63u8, 174u8, 186u8, 47u8, 213u8, 140u8, 118u8, 121u8, 206u8, 72u8, 29u8, 14u8, 111u8, 123u8, 109u8, 130u8]
}

#[verifier::opaque]
spec fn acc_5_103() -> Seq<u8> {
    seq![212u8, 245u8, 73u8, 61u8, 43u8, 141u8, 132u8, 179u8, 235u8, 87u8, 145u8, 82u8, 142u8, 248u8, 94u8, 218u8]
}

#[verifier::opaque]
spec fn acc_5_104() -> Seq<u8> {
    seq![2u8, 66u8, 175u8, 24u8, 215u8, 142u8, 96u8, 38u8, 160u8, 105u8, 137u8, 235u8, 76u8, 255u8, 57u8, 106u8]
}

#[verifier::opaque]
spec fn acc_5_105() -> Seq<u8> {
    seq![2u8, 66u8, 175u8, 24u8, 215u8, 142u8, 96u8, 38u8, 160u8, 105u8, 137u8, 235u8, 76u8, 255u8, 57u8, 106u8]
}

#[verifier::opaque]
spec fn acc_5_106() -> Seq<u8> {
    seq![2u8, 66u8, 175u8, 24u8, 215u8, 142u8, 96u8, 38u8, 160u8, 105u8, 137u8, 235u8, 76u8, 255u8, 57u8, 106u8]
}

#[verifier::opaque]
spec fn acc_5_107() -> Seq<u8> {
    seq![2u8, 66u8, 175u8, 24u8, 215u8, 142u8, 96u8, 38u8, 160u8, 105u8, 137u8, 235u8, 76u8, 255u8, 57u8, 106u8]
}

#[verifier::opaque]
spec fn acc_5_108() -> Seq<u8> {
    seq![2u8, 66u8, 175u8, 24u8, 215u8, 142u8, 96u8, 38u8, 160u8, 105u8, 137u8, 235u8, 76u8, 255u8, 57u8, 106u8]
}

#[verifier::opaque]
spec fn acc_5_109() -> Seq<u8> {
    seq![160u8, 179u8, 121u8, 164u8, 83u8, 241u8, 224u8, 154u8, 210u8, 160u8, 142u8, 200u8, 27u8, 7u8, 217u8, 102u8]
}

#[verifier::opaque]
spec fn acc_5_110() -> Seq<u8> {
    seq![160u8, 179u8, 121u8, 164u8, 83u8, 241u8, 224u8, 154u8, 210u8, 160u8, 142u8, 200u8, 27u8, 7u8, 217u8, 102u8]
}

#[verifier::opaque]
spec fn acc_5_111() -> Seq<u8> {
    seq![160u8, 179u8, 121u8, 164u8, 83u8, 241u8, 224u8, 154u8, 210u8, 160u8, 142u8, 200u8, 27u8, 7u8, 217u8, 102u8]
}

#[verifier::opaque]
spec fn acc_5_112() -> Seq<u8> {
    seq![160u8, 179u8, 121u8, 164u8, 83u8, 241u8, 224u8, 154u8, 210u8, 160u8, 142u8, 200u8, 27u8, 7u8, 217u8, 102u8]
}

#[verifier::opaque]
spec fn acc_5_113() -> Seq<u8> {
    seq![160u8, 179u8, 121u8, 164u8, 83u8, 241u8, 224u8, 154u8, 210u8, 160u8, 142u8, 200u8, 27u8, 7u8, 217u8, 102u8]
}

#[verifier::opaque]
spec fn acc_5_114() -> Seq<u8> {
    seq![160u8, 179u8, 121u8, 164u8, 83u8, 241u8, 224u8, 154u8, 210u8, 160u8, 142u8, 200u8, 27u8, 7u8, 217u8, 102u8]
}

#[verifier::opaque]
spec fn acc_5_115() -> Seq<u8> {
    seq![160u8, 179u8, 121u8, 164u8, 83u8, 241u8, 224u8, 154u8, 210u8, 160u8, 142u8, 200u8, 27u8, 7u8, 217u8, 102u8]
}

#[verifier::opaque]
spec fn acc_5_116() -> Seq<u8> {
    seq![178u8, 97u8, 1u8, 207u8, 13u8, 51u8, 223u8, 218u8, 140u8, 25u8, 106u8, 75u8, 138u8, 44u8, 165u8, 22u8]
}

#[verifier::opaque]
spec fn acc_5_117() -> Seq<u8> {
    seq![150u8, 197u8, 240u8, 25u8, 177u8, 183u8, 160u8, 90u8, 48u8, 107u8, 163u8, 76u8, 169u8, 123u8, 93u8, 246u8]
}

#[verifier::opaque]
spec fn acc_5_118() -> Seq<u8> {
    seq![150u8, 197u8, 240u8, 25u8, 177u8, 183u8, 160u8, 90u8, 48u8, 107u8, 163u8, 76u8, 169u8, 123u8, 93u8, 246u8]
}

#[verifier::opaque]
spec fn acc_5_119() -> Seq<u8> {
    seq![150u8, 197u8, 240u8, 25u8, 177u8, 183u8, 160u8, 90u8, 48u8, 107u8, 163u8, 76u8, 169u8, 123u8, 93u8, 246u8]
}

#[verifier::opaque]
spec fn acc_5_120() -> Seq<u8> {
    seq![35u8, 231u8, 125u8, 174u8, 87u8, 146u8, 92u8, 89u8, 212u8, 254u8, 232u8, 114u8, 177u8, 194u8, 159u8, 241u8]
}

#[verifier::opaque]
spec fn acc_5_121() -> Seq<u8> {
    seq![35u8, 231u8, 125u8, 174u8, 87u8, 146u8, 92u8, 89u8, 212u8, 254u8, 232u8, 114u8, 177u8, 194u8, 159u8, 241u8]
}

#[verifier::opaque]
spec fn acc_5_122() -> Seq<u8> {
    seq![35u8, 231u8, 125u8, 174u8, 87u8, 146u8, 92u8, 89u8, 212u8, 254u8, 232u8, 114u8, 177u8, 194u8, 159u8, 241u8]
}

#[verifier::opaque]
spec fn acc_5_123() -> Seq<u8> {
    seq![139u8, 242u8, 20u8, 18u8, 98u8, 189u8, 189u8, 70u8, 244u8, 81u8, 180u8, 128u8, 112u8, 10u8, 138u8, 207u8]
}

#[verifier::opaque]
spec fn acc_5_124() -> Seq<u8> {
    seq![139u8, 242u8, 20u8, 18u8, 98u8, 189u8, 189u8, 70u8, 244u8, 81u8, 180u8, 128u8, 112u8, 10u8, 138u8, 207u8]
}

#[verifier::opaque]
spec fn acc_5_125() -> Seq<u8> {
    seq![43u8, 164u8, 176u8, 227u8, 180u8, 1u8, 57u8, 57u8, 116u8, 237u8, 198u8, 73u8, 119u8, 41u8, 221u8, 55u8]
}

#[verifier::opaque]
spec fn acc_5_126() -> Seq<u8> {
    seq![43u8, 164u8, 176u8, 227u8, 180u8, 1u8, 57u8, 57u8, 116u8, 237u8, 198u8, 73u8, 119u8, 41u8, 221u8, 55u8]
}

#[verifier::opaque]
spec fn acc_5_127() -> Seq<u8> {
    seq![34u8, 255u8, 33u8, 37u8, 239u8, 242u8, 43u8, 199u8, 117u8, 31u8, 12u8, 108u8, 104u8, 165u8, 129u8, 214u8]
}

#[verifier::opaque]
spec fn acc_5_128() -> Seq<u8> {
    seq![34u8, 255u8, 33u8, 37u8, 239u8, 242u8, 43u8, 199u8, 117u8, 31u8, 12u8, 108u8, 104u8, 165u8, 129u8, 214u8]
}

proof fn lemma_acc_5_0()
    ensures
        shift_add_mul(alpha_spec(), alpha_pow_5(), 0) == acc_5_0(),
{
    reveal(acc_5_0);
    assert(shift_add_mul(alpha_spec(), alpha_pow_5(), 0) =~= acc_5_0());
}

proof fn lemma_acc_5_1()
    ensures
        shift_add_mul(alpha_spec(), alpha_pow_5(), 1) == acc_5_1(),
{
    lemma_acc_5_0();
    lemma_alpha_x_0();
    lemma_alpha_byte_facts();
    reveal(bytes_p_5_1);
    reveal(alpha_pow_5);
    reveal(acc_5_0);
    reveal(acc_5_1);
    reveal(alpha_x_0);
    assert(bits_of_bytes(alpha_pow_5())[0] == bit_of(180u8, 0));
    assert(shift_add_mul(alpha_spec(), alpha_pow_5(), 1) =~= acc_5_1());
}

proof fn lemma_acc_5_2()
    ensures
        shift_add_mul(alpha_spec(), alpha_pow_5(), 2) == acc_5_2(),
{
    lemma_acc_5_1();
    lemma_alpha_x_1();
    lemma_alpha_byte_facts();
    reveal(bytes_p_5_2);
    reveal(alpha_pow_5);
    reveal(acc_5_1);
    reveal(acc_5_2);
    reveal(alpha_x_1);
    assert(bits_of_bytes(alpha_pow_5())[1] == bit_of(180u8, 1));
    assert(shift_add_mul(alpha_spec(), alpha_pow_5(), 2) =~= acc_5_2());
}

proof fn lemma_acc_5_3()
    ensures
        shift_add_mul(alpha_spec(), alpha_pow_5(), 3) == acc_5_3(),
{
    lemma_acc_5_2();
    lemma_alpha_x_2();
    lemma_alpha_byte_facts();
    reveal(bytes_p_5_3);
    reveal(alpha_pow_5);
    reveal(acc_5_2);
    reveal(acc_5_3);
    reveal(alpha_x_2);
    assert(bits_of_bytes(alpha_pow_5())[2] == bit_of(180u8, 2));
    assert(shift_add_mul(alpha_spec(), alpha_pow_5(), 3) =~= acc_5_3());
}

proof fn lemma_acc_5_4()
    ensures
        shift_add_mul(alpha_spec(), alpha_pow_5(), 4) == acc_5_4(),
{
    lemma_acc_5_3();
    lemma_alpha_x_3();
    lemma_alpha_byte_facts();
    reveal(bytes_p_5_4);
    reveal(alpha_pow_5);
    reveal(acc_5_3);
    reveal(acc_5_4);
    reveal(alpha_x_3);
    assert(bits_of_bytes(alpha_pow_5())[3] == bit_of(180u8, 3));
    assert(shift_add_mul(alpha_spec(), alpha_pow_5(), 4) =~= acc_5_4());
}

proof fn lemma_acc_5_5()
    ensures
        shift_add_mul(alpha_spec(), alpha_pow_5(), 5) == acc_5_5(),
{
    lemma_acc_5_4();
    lemma_alpha_x_4();
    lemma_alpha_byte_facts();
    reveal(bytes_p_5_5);
    reveal(alpha_pow_5);
    reveal(acc_5_4);
    reveal(acc_5_5);
    reveal(alpha_x_4);
    assert(bits_of_bytes(alpha_pow_5())[4] == bit_of(180u8, 4));
    assert(shift_add_mul(alpha_spec(), alpha_pow_5(), 5) =~= acc_5_5());
}

proof fn lemma_acc_5_6()
    ensures
        shift_add_mul(alpha_spec(), alpha_pow_5(), 6) == acc_5_6(),
{
    lemma_acc_5_5();
    lemma_alpha_x_5();
    lemma_alpha_byte_facts();
    reveal(bytes_p_5_6);
    reveal(alpha_pow_5);
    reveal(acc_5_5);
    reveal(acc_5_6);
    reveal(alpha_x_5);
    assert(bits_of_bytes(alpha_pow_5())[5] == bit_of(180u8, 5));
    assert(shift_add_mul(alpha_spec(), alpha_pow_5(), 6) =~= acc_5_6());
}

proof fn lemma_acc_5_7()
    ensures
        shift_add_mul(alpha_spec(), alpha_pow_5(), 7) == acc_5_7(),
{
    lemma_acc_5_6();
    lemma_alpha_x_6();
    lemma_alpha_byte_facts();
    reveal(bytes_p_5_7);
    reveal(alpha_pow_5);
    reveal(acc_5_6);
    reveal(acc_5_7);
    reveal(alpha_x_6);
    assert(bits_of_bytes(alpha_pow_5())[6] == bit_of(180u8, 6));
    assert(shift_add_mul(alpha_spec(), alpha_pow_5(), 7) =~= acc_5_7());
}

proof fn lemma_acc_5_8()
    ensures
        shift_add_mul(alpha_spec(), alpha_pow_5(), 8) == acc_5_8(),
{
    lemma_acc_5_7();
    lemma_alpha_x_7();
    lemma_alpha_byte_facts();
    reveal(bytes_p_5_8);
    reveal(alpha_pow_5);
    reveal(acc_5_7);
    reveal(acc_5_8);
    reveal(alpha_x_7);
    assert(bits_of_bytes(alpha_pow_5())[7] == bit_of(180u8, 7));
    assert(shift_add_mul(alpha_spec(), alpha_pow_5(), 8) =~= acc_5_8());
}

proof fn lemma_acc_5_9()
    ensures
        shift_add_mul(alpha_spec(), alpha_pow_5(), 9) == acc_5_9(),
{
    lemma_acc_5_8();
    lemma_alpha_x_8();
    lemma_alpha_byte_facts();
    reveal(bytes_p_5_9);
    reveal(alpha_pow_5);
    reveal(acc_5_8);
    reveal(acc_5_9);
    reveal(alpha_x_8);
    assert(bits_of_bytes(alpha_pow_5())[8] == bit_of(130u8, 0));
    assert(shift_add_mul(alpha_spec(), alpha_pow_5(), 9) =~= acc_5_9());
}

proof fn lemma_acc_5_10()
    ensures
        shift_add_mul(alpha_spec(), alpha_pow_5(), 10) == acc_5_10(),
{
    lemma_acc_5_9();
    lemma_alpha_x_9();
    lemma_alpha_byte_facts();
    reveal(bytes_p_5_10);
    reveal(alpha_pow_5);
    reveal(acc_5_9);
    reveal(acc_5_10);
    reveal(alpha_x_9);
    assert(bits_of_bytes(alpha_pow_5())[9] == bit_of(130u8, 1));
    assert(shift_add_mul(alpha_spec(), alpha_pow_5(), 10) =~= acc_5_10());
}

proof fn lemma_acc_5_11()
    ensures
        shift_add_mul(alpha_spec(), alpha_pow_5(), 11) == acc_5_11(),
{
    lemma_acc_5_10();
    lemma_alpha_x_10();
    lemma_alpha_byte_facts();
    reveal(bytes_p_5_11);
    reveal(alpha_pow_5);
    reveal(acc_5_10);
    reveal(acc_5_11);
    reveal(alpha_x_10);
    assert(bits_of_bytes(alpha_pow_5())[10] == bit_of(130u8, 2));
    assert(shift_add_mul(alpha_spec(), alpha_pow_5(), 11) =~= acc_5_11());
}

proof fn lemma_acc_5_12()
    ensures
        shift_add_mul(alpha_spec(), alpha_pow_5(), 12) == acc_5_12(),
{
    lemma_acc_5_11();
    lemma_alpha_x_11();
    lemma_alpha_byte_facts();
    reveal(bytes_p_5_12);
    reveal(alpha_pow_5);
    reveal(acc_5_11);
    reveal(acc_5_12);
    reveal(alpha_x_11);
    assert(bits_of_bytes(alpha_pow_5())[11] == bit_of(130u8, 3));
    assert(shift_add_mul(alpha_spec(), alpha_pow_5(), 12) =~= acc_5_12());
}

proof fn lemma_acc_5_13()
    ensures
        shift_add_mul(alpha_spec(), alpha_pow_5(), 13) == acc_5_13(),
{
    lemma_acc_5_12();
    lemma_alpha_x_12();
    lemma_alpha_byte_facts();
    reveal(bytes_p_5_13);
    reveal(alpha_pow_5);
    reveal(acc_5_12);
    reveal(acc_5_13);
    reveal(alpha_x_12);
    assert(bits_of_bytes(alpha_pow_5())[12] == bit_of(130u8, 4));
    assert(shift_add_mul(alpha_spec(), alpha_pow_5(), 13) =~= acc_5_13());
}

proof fn lemma_acc_5_14()
    ensures
        shift_add_mul(alpha_spec(), alpha_pow_5(), 14) == acc_5_14(),
{
    lemma_acc_5_13();
    lemma_alpha_x_13();
    lemma_alpha_byte_facts();
    reveal(bytes_p_5_14);
    reveal(alpha_pow_5);
    reveal(acc_5_13);
    reveal(acc_5_14);
    reveal(alpha_x_13);
    assert(bits_of_bytes(alpha_pow_5())[13] == bit_of(130u8, 5));
    assert(shift_add_mul(alpha_spec(), alpha_pow_5(), 14) =~= acc_5_14());
}

proof fn lemma_acc_5_15()
    ensures
        shift_add_mul(alpha_spec(), alpha_pow_5(), 15) == acc_5_15(),
{
    lemma_acc_5_14();
    lemma_alpha_x_14();
    lemma_alpha_byte_facts();
    reveal(bytes_p_5_15);
    reveal(alpha_pow_5);
    reveal(acc_5_14);
    reveal(acc_5_15);
    reveal(alpha_x_14);
    assert(bits_of_bytes(alpha_pow_5())[14] == bit_of(130u8, 6));
    assert(shift_add_mul(alpha_spec(), alpha_pow_5(), 15) =~= acc_5_15());
}

proof fn lemma_acc_5_16()
    ensures
        shift_add_mul(alpha_spec(), alpha_pow_5(), 16) == acc_5_16(),
{
    lemma_acc_5_15();
    lemma_alpha_x_15();
    lemma_alpha_byte_facts();
    reveal(bytes_p_5_16);
    reveal(alpha_pow_5);
    reveal(acc_5_15);
    reveal(acc_5_16);
    reveal(alpha_x_15);
    assert(bits_of_bytes(alpha_pow_5())[15] == bit_of(130u8, 7));
    assert(shift_add_mul(alpha_spec(), alpha_pow_5(), 16) =~= acc_5_16());
}

proof fn lemma_acc_5_17()
    ensures
        shift_add_mul(alpha_spec(), alpha_pow_5(), 17) == acc_5_17(),
{
    lemma_acc_5_16();
    lemma_alpha_x_16();
    lemma_alpha_byte_facts();
    reveal(bytes_p_5_17);
    reveal(alpha_pow_5);
    reveal(acc_5_16);
    reveal(acc_5_17);
    reveal(alpha_x_16);
    assert(bits_of_bytes(alpha_pow_5())[16] == bit_of(27u8, 0));
    assert(shift_add_mul(alpha_spec(), alpha_pow_5(), 17) =~= acc_5_17());
}

proof fn lemma_acc_5_18()
    ensures
        shift_add_mul(alpha_spec(), alpha_pow_5(), 18) == acc_5_18(),
{
    lemma_acc_5_17();
    lemma_alpha_x_17();
    lemma_alpha_byte_facts();
    reveal(bytes_p_5_18);
    reveal(alpha_pow_5);
    reveal(acc_5_17);
    reveal(acc_5_18);
    reveal(alpha_x_17);
    assert(bits_of_bytes(alpha_pow_5())[17] == bit_of(27u8, 1));
    assert(shift_add_mul(alpha_spec(), alpha_pow_5(), 18) =~= acc_5_18());
}

proof fn lemma_acc_5_19()
    ensures
        shift_add_mul(alpha_spec(), alpha_pow_5(), 19) == acc_5_19(),
{
    lemma_acc_5_18();
    lemma_alpha_x_18();
    lemma_alpha_byte_facts();
    reveal(bytes_p_5_19);
    reveal(alpha_pow_5);
    reveal(acc_5_18);
    reveal(acc_5_19);
    reveal(alpha_x_18);
    assert(bits_of_bytes(alpha_pow_5())[18] == bit_of(27u8, 2));
    assert(shift_add_mul(alpha_spec(), alpha_pow_5(), 19) =~= acc_5_19());
}

proof fn lemma_acc_5_20()
    ensures
        shift_add_mul(alpha_spec(), alpha_pow_5(), 20) == acc_5_20(),
{
    lemma_acc_5_19();
    lemma_alpha_x_19();
    lemma_alpha_byte_facts();
    reveal(bytes_p_5_20);
    reveal(alpha_pow_5);
    reveal(acc_5_19);
    reveal(acc_5_20);
    reveal(alpha_x_19);
    assert(bits_of_bytes(alpha_pow_5())[19] == bit_of(27u8, 3));
    assert(shift_add_mul(alpha_spec(), alpha_pow_5(), 20) =~= acc_5_20());
}

proof fn lemma_acc_5_21()
    ensures
        shift_add_mul(alpha_spec(), alpha_pow_5(), 21) == acc_5_21(),
{
    lemma_acc_5_20();
    lemma_alpha_x_20();
    lemma_alpha_byte_facts();
    reveal(bytes_p_5_21);
    reveal(alpha_pow_5);
    reveal(acc_5_20);
    reveal(acc_5_21);
    reveal(alpha_x_20);
    assert(bits_of_bytes(alpha_pow_5())[20] == bit_of(27u8, 4));
    assert(shift_add_mul(alpha_spec(), alpha_pow_5(), 21) =~= acc_5_21());
}

proof fn lemma_acc_5_22()
    ensures
        shift_add_mul(alpha_spec(), alpha_pow_5(), 22) == acc_5_22(),
{
    lemma_acc_5_21();
    lemma_alpha_x_21();
    lemma_alpha_byte_facts();
    reveal(bytes_p_5_22);
    reveal(alpha_pow_5);
    reveal(acc_5_21);
    reveal(acc_5_22);
    reveal(alpha_x_21);
    assert(bits_of_bytes(alpha_pow_5())[21] == bit_of(27u8, 5));
    assert(shift_add_mul(alpha_spec(), alpha_pow_5(), 22) =~= acc_5_22());
}

proof fn lemma_acc_5_23()
    ensures
        shift_add_mul(alpha_spec(), alpha_pow_5(), 23) == acc_5_23(),
{
    lemma_acc_5_22();
    lemma_alpha_x_22();
    lemma_alpha_byte_facts();
    reveal(bytes_p_5_23);
    reveal(alpha_pow_5);
    reveal(acc_5_22);
    reveal(acc_5_23);
    reveal(alpha_x_22);
    assert(bits_of_bytes(alpha_pow_5())[22] == bit_of(27u8, 6));
    assert(shift_add_mul(alpha_spec(), alpha_pow_5(), 23) =~= acc_5_23());
}

proof fn lemma_acc_5_24()
    ensures
        shift_add_mul(alpha_spec(), alpha_pow_5(), 24) == acc_5_24(),
{
    lemma_acc_5_23();
    lemma_alpha_x_23();
    lemma_alpha_byte_facts();
    reveal(bytes_p_5_24);
    reveal(alpha_pow_5);
    reveal(acc_5_23);
    reveal(acc_5_24);
    reveal(alpha_x_23);
    assert(bits_of_bytes(alpha_pow_5())[23] == bit_of(27u8, 7));
    assert(shift_add_mul(alpha_spec(), alpha_pow_5(), 24) =~= acc_5_24());
}

proof fn lemma_acc_5_25()
    ensures
        shift_add_mul(alpha_spec(), alpha_pow_5(), 25) == acc_5_25(),
{
    lemma_acc_5_24();
    lemma_alpha_x_24();
    lemma_alpha_byte_facts();
    reveal(bytes_p_5_25);
    reveal(alpha_pow_5);
    reveal(acc_5_24);
    reveal(acc_5_25);
    reveal(alpha_x_24);
    assert(bits_of_bytes(alpha_pow_5())[24] == bit_of(123u8, 0));
    assert(shift_add_mul(alpha_spec(), alpha_pow_5(), 25) =~= acc_5_25());
}

proof fn lemma_acc_5_26()
    ensures
        shift_add_mul(alpha_spec(), alpha_pow_5(), 26) == acc_5_26(),
{
    lemma_acc_5_25();
    lemma_alpha_x_25();
    lemma_alpha_byte_facts();
    reveal(bytes_p_5_26);
    reveal(alpha_pow_5);
    reveal(acc_5_25);
    reveal(acc_5_26);
    reveal(alpha_x_25);
    assert(bits_of_bytes(alpha_pow_5())[25] == bit_of(123u8, 1));
    assert(shift_add_mul(alpha_spec(), alpha_pow_5(), 26) =~= acc_5_26());
}

proof fn lemma_acc_5_27()
    ensures
        shift_add_mul(alpha_spec(), alpha_pow_5(), 27) == acc_5_27(),
{
    lemma_acc_5_26();
    lemma_alpha_x_26();
    lemma_alpha_byte_facts();
    reveal(bytes_p_5_27);
    reveal(alpha_pow_5);
    reveal(acc_5_26);
    reveal(acc_5_27);
    reveal(alpha_x_26);
    assert(bits_of_bytes(alpha_pow_5())[26] == bit_of(123u8, 2));
    assert(shift_add_mul(alpha_spec(), alpha_pow_5(), 27) =~= acc_5_27());
}

proof fn lemma_acc_5_28()
    ensures
        shift_add_mul(alpha_spec(), alpha_pow_5(), 28) == acc_5_28(),
{
    lemma_acc_5_27();
    lemma_alpha_x_27();
    lemma_alpha_byte_facts();
    reveal(bytes_p_5_28);
    reveal(alpha_pow_5);
    reveal(acc_5_27);
    reveal(acc_5_28);
    reveal(alpha_x_27);
    assert(bits_of_bytes(alpha_pow_5())[27] == bit_of(123u8, 3));
    assert(shift_add_mul(alpha_spec(), alpha_pow_5(), 28) =~= acc_5_28());
}

proof fn lemma_acc_5_29()
    ensures
        shift_add_mul(alpha_spec(), alpha_pow_5(), 29) == acc_5_29(),
{
    lemma_acc_5_28();
    lemma_alpha_x_28();
    lemma_alpha_byte_facts();
    reveal(bytes_p_5_29);
    reveal(alpha_pow_5);
    reveal(acc_5_28);
    reveal(acc_5_29);
    reveal(alpha_x_28);
    assert(bits_of_bytes(alpha_pow_5())[28] == bit_of(123u8, 4));
    assert(shift_add_mul(alpha_spec(), alpha_pow_5(), 29) =~= acc_5_29());
}

proof fn lemma_acc_5_30()
    ensures
        shift_add_mul(alpha_spec(), alpha_pow_5(), 30) == acc_5_30(),
{
    lemma_acc_5_29();
    lemma_alpha_x_29();
    lemma_alpha_byte_facts();
    reveal(bytes_p_5_30);
    reveal(alpha_pow_5);
    reveal(acc_5_29);
    reveal(acc_5_30);
    reveal(alpha_x_29);
    assert(bits_of_bytes(alpha_pow_5())[29] == bit_of(123u8, 5));
    assert(shift_add_mul(alpha_spec(), alpha_pow_5(), 30) =~= acc_5_30());
}

proof fn lemma_acc_5_31()
    ensures
        shift_add_mul(alpha_spec(), alpha_pow_5(), 31) == acc_5_31(),
{
    lemma_acc_5_30();
    lemma_alpha_x_30();
    lemma_alpha_byte_facts();
    reveal(bytes_p_5_31);
    reveal(alpha_pow_5);
    reveal(acc_5_30);
    reveal(acc_5_31);
    reveal(alpha_x_30);
    assert(bits_of_bytes(alpha_pow_5())[30] == bit_of(123u8, 6));
    assert(shift_add_mul(alpha_spec(), alpha_pow_5(), 31) =~= acc_5_31());
}

proof fn lemma_acc_5_32()
    ensures
        shift_add_mul(alpha_spec(), alpha_pow_5(), 32) == acc_5_32(),
{
    lemma_acc_5_31();
    lemma_alpha_x_31();
    lemma_alpha_byte_facts();
    reveal(bytes_p_5_32);
    reveal(alpha_pow_5);
    reveal(acc_5_31);
    reveal(acc_5_32);
    reveal(alpha_x_31);
    assert(bits_of_bytes(alpha_pow_5())[31] == bit_of(123u8, 7));
    assert(shift_add_mul(alpha_spec(), alpha_pow_5(), 32) =~= acc_5_32());
}

proof fn lemma_acc_5_33()
    ensures
        shift_add_mul(alpha_spec(), alpha_pow_5(), 33) == acc_5_33(),
{
    lemma_acc_5_32();
    lemma_alpha_x_32();
    lemma_alpha_byte_facts();
    reveal(bytes_p_5_33);
    reveal(alpha_pow_5);
    reveal(acc_5_32);
    reveal(acc_5_33);
    reveal(alpha_x_32);
    assert(bits_of_bytes(alpha_pow_5())[32] == bit_of(39u8, 0));
    assert(shift_add_mul(alpha_spec(), alpha_pow_5(), 33) =~= acc_5_33());
}

proof fn lemma_acc_5_34()
    ensures
        shift_add_mul(alpha_spec(), alpha_pow_5(), 34) == acc_5_34(),
{
    lemma_acc_5_33();
    lemma_alpha_x_33();
    lemma_alpha_byte_facts();
    reveal(bytes_p_5_34);
    reveal(alpha_pow_5);
    reveal(acc_5_33);
    reveal(acc_5_34);
    reveal(alpha_x_33);
    assert(bits_of_bytes(alpha_pow_5())[33] == bit_of(39u8, 1));
    assert(shift_add_mul(alpha_spec(), alpha_pow_5(), 34) =~= acc_5_34());
}

proof fn lemma_acc_5_35()
    ensures
        shift_add_mul(alpha_spec(), alpha_pow_5(), 35) == acc_5_35(),
{
    lemma_acc_5_34();
    lemma_alpha_x_34();
    lemma_alpha_byte_facts();
    reveal(bytes_p_5_35);
    reveal(alpha_pow_5);
    reveal(acc_5_34);
    reveal(acc_5_35);
    reveal(alpha_x_34);
    assert(bits_of_bytes(alpha_pow_5())[34] == bit_of(39u8, 2));
    assert(shift_add_mul(alpha_spec(), alpha_pow_5(), 35) =~= acc_5_35());
}

proof fn lemma_acc_5_36()
    ensures
        shift_add_mul(alpha_spec(), alpha_pow_5(), 36) == acc_5_36(),
{
    lemma_acc_5_35();
    lemma_alpha_x_35();
    lemma_alpha_byte_facts();
    reveal(bytes_p_5_36);
    reveal(alpha_pow_5);
    reveal(acc_5_35);
    reveal(acc_5_36);
    reveal(alpha_x_35);
    assert(bits_of_bytes(alpha_pow_5())[35] == bit_of(39u8, 3));
    assert(shift_add_mul(alpha_spec(), alpha_pow_5(), 36) =~= acc_5_36());
}

proof fn lemma_acc_5_37()
    ensures
        shift_add_mul(alpha_spec(), alpha_pow_5(), 37) == acc_5_37(),
{
    lemma_acc_5_36();
    lemma_alpha_x_36();
    lemma_alpha_byte_facts();
    reveal(bytes_p_5_37);
    reveal(alpha_pow_5);
    reveal(acc_5_36);
    reveal(acc_5_37);
    reveal(alpha_x_36);
    assert(bits_of_bytes(alpha_pow_5())[36] == bit_of(39u8, 4));
    assert(shift_add_mul(alpha_spec(), alpha_pow_5(), 37) =~= acc_5_37());
}

proof fn lemma_acc_5_38()
    ensures
        shift_add_mul(alpha_spec(), alpha_pow_5(), 38) == acc_5_38(),
{
    lemma_acc_5_37();
    lemma_alpha_x_37();
    lemma_alpha_byte_facts();
    reveal(bytes_p_5_38);
    reveal(alpha_pow_5);
    reveal(acc_5_37);
    reveal(acc_5_38);
    reveal(alpha_x_37);
    assert(bits_of_bytes(alpha_pow_5())[37] == bit_of(39u8, 5));
    assert(shift_add_mul(alpha_spec(), alpha_pow_5(), 38) =~= acc_5_38());
}

proof fn lemma_acc_5_39()
    ensures
        shift_add_mul(alpha_spec(), alpha_pow_5(), 39) == acc_5_39(),
{
    lemma_acc_5_38();
    lemma_alpha_x_38();
    lemma_alpha_byte_facts();
    reveal(bytes_p_5_39);
    reveal(alpha_pow_5);
    reveal(acc_5_38);
    reveal(acc_5_39);
    reveal(alpha_x_38);
    assert(bits_of_bytes(alpha_pow_5())[38] == bit_of(39u8, 6));
    assert(shift_add_mul(alpha_spec(), alpha_pow_5(), 39) =~= acc_5_39());
}

proof fn lemma_acc_5_40()
    ensures
        shift_add_mul(alpha_spec(), alpha_pow_5(), 40) == acc_5_40(),
{
    lemma_acc_5_39();
    lemma_alpha_x_39();
    lemma_alpha_byte_facts();
    reveal(bytes_p_5_40);
    reveal(alpha_pow_5);
    reveal(acc_5_39);
    reveal(acc_5_40);
    reveal(alpha_x_39);
    assert(bits_of_bytes(alpha_pow_5())[39] == bit_of(39u8, 7));
    assert(shift_add_mul(alpha_spec(), alpha_pow_5(), 40) =~= acc_5_40());
}

proof fn lemma_acc_5_41()
    ensures
        shift_add_mul(alpha_spec(), alpha_pow_5(), 41) == acc_5_41(),
{
    lemma_acc_5_40();
    lemma_alpha_x_40();
    lemma_alpha_byte_facts();
    reveal(bytes_p_5_41);
    reveal(alpha_pow_5);
    reveal(acc_5_40);
    reveal(acc_5_41);
    reveal(alpha_x_40);
    assert(bits_of_bytes(alpha_pow_5())[40] == bit_of(73u8, 0));
    assert(shift_add_mul(alpha_spec(), alpha_pow_5(), 41) =~= acc_5_41());
}

proof fn lemma_acc_5_42()
    ensures
        shift_add_mul(alpha_spec(), alpha_pow_5(), 42) == acc_5_42(),
{
    lemma_acc_5_41();
    lemma_alpha_x_41();
    lemma_alpha_byte_facts();
    reveal(bytes_p_5_42);
    reveal(alpha_pow_5);
    reveal(acc_5_41);
    reveal(acc_5_42);
    reveal(alpha_x_41);
    assert(bits_of_bytes(alpha_pow_5())[41] == bit_of(73u8, 1));
    assert(shift_add_mul(alpha_spec(), alpha_pow_5(), 42) =~= acc_5_42());
}

proof fn lemma_acc_5_43()
    ensures
        shift_add_mul(alpha_spec(), alpha_pow_5(), 43) == acc_5_43(),
{
    lemma_acc_5_42();
    lemma_alpha_x_42();
    lemma_alpha_byte_facts();
    reveal(bytes_p_5_43);
    reveal(alpha_pow_5);
    reveal(acc_5_42);
    reveal(acc_5_43);
    reveal(alpha_x_42);
    assert(bits_of_bytes(alpha_pow_5())[42] == bit_of(73u8, 2));
    assert(shift_add_mul(alpha_spec(), alpha_pow_5(), 43) =~= acc_5_43());
}

proof fn lemma_acc_5_44()
    ensures
        shift_add_mul(alpha_spec(), alpha_pow_5(), 44) == acc_5_44(),
{
    lemma_acc_5_43();
    lemma_alpha_x_43();
    lemma_alpha_byte_facts();
    reveal(bytes_p_5_44);
    reveal(alpha_pow_5);
    reveal(acc_5_43);
    reveal(acc_5_44);
    reveal(alpha_x_43);
    assert(bits_of_bytes(alpha_pow_5())[43] == bit_of(73u8, 3));
    assert(shift_add_mul(alpha_spec(), alpha_pow_5(), 44) =~= acc_5_44());
}

proof fn lemma_acc_5_45()
    ensures
        shift_add_mul(alpha_spec(), alpha_pow_5(), 45) == acc_5_45(),
{
    lemma_acc_5_44();
    lemma_alpha_x_44();
    lemma_alpha_byte_facts();
    reveal(bytes_p_5_45);
    reveal(alpha_pow_5);
    reveal(acc_5_44);
    reveal(acc_5_45);
    reveal(alpha_x_44);
    assert(bits_of_bytes(alpha_pow_5())[44] == bit_of(73u8, 4));
    assert(shift_add_mul(alpha_spec(), alpha_pow_5(), 45) =~= acc_5_45());
}

proof fn lemma_acc_5_46()
    ensures
        shift_add_mul(alpha_spec(), alpha_pow_5(), 46) == acc_5_46(),
{
    lemma_acc_5_45();
    lemma_alpha_x_45();
    lemma_alpha_byte_facts();
    reveal(bytes_p_5_46);
    reveal(alpha_pow_5);
    reveal(acc_5_45);
    reveal(acc_5_46);
    reveal(alpha_x_45);
    assert(bits_of_bytes(alpha_pow_5())[45] == bit_of(73u8, 5));
    assert(shift_add_mul(alpha_spec(), alpha_pow_5(), 46) =~= acc_5_46());
}

proof fn lemma_acc_5_47()
    ensures
        shift_add_mul(alpha_spec(), alpha_pow_5(), 47) == acc_5_47(),
{
    lemma_acc_5_46();
    lemma_alpha_x_46();
    lemma_alpha_byte_facts();
    reveal(bytes_p_5_47);
    reveal(alpha_pow_5);
    reveal(acc_5_46);
    reveal(acc_5_47);
    reveal(alpha_x_46);
    assert(bits_of_bytes(alpha_pow_5())[46] == bit_of(73u8, 6));
    assert(shift_add_mul(alpha_spec(), alpha_pow_5(), 47) =~= acc_5_47());
}

proof fn lemma_acc_5_48()
    ensures
        shift_add_mul(alpha_spec(), alpha_pow_5(), 48) == acc_5_48(),
{
    lemma_acc_5_47();
    lemma_alpha_x_47();
    lemma_alpha_byte_facts();
    reveal(bytes_p_5_48);
    reveal(alpha_pow_5);
    reveal(acc_5_47);
    reveal(acc_5_48);
    reveal(alpha_x_47);
    assert(bits_of_bytes(alpha_pow_5())[47] == bit_of(73u8, 7));
    assert(shift_add_mul(alpha_spec(), alpha_pow_5(), 48) =~= acc_5_48());
}

proof fn lemma_acc_5_49()
    ensures
        shift_add_mul(alpha_spec(), alpha_pow_5(), 49) == acc_5_49(),
{
    lemma_acc_5_48();
    lemma_alpha_x_48();
    lemma_alpha_byte_facts();
    reveal(bytes_p_5_49);
    reveal(alpha_pow_5);
    reveal(acc_5_48);
    reveal(acc_5_49);
    reveal(alpha_x_48);
    assert(bits_of_bytes(alpha_pow_5())[48] == bit_of(43u8, 0));
    assert(shift_add_mul(alpha_spec(), alpha_pow_5(), 49) =~= acc_5_49());
}

proof fn lemma_acc_5_50()
    ensures
        shift_add_mul(alpha_spec(), alpha_pow_5(), 50) == acc_5_50(),
{
    lemma_acc_5_49();
    lemma_alpha_x_49();
    lemma_alpha_byte_facts();
    reveal(bytes_p_5_50);
    reveal(alpha_pow_5);
    reveal(acc_5_49);
    reveal(acc_5_50);
    reveal(alpha_x_49);
    assert(bits_of_bytes(alpha_pow_5())[49] == bit_of(43u8, 1));
    assert(shift_add_mul(alpha_spec(), alpha_pow_5(), 50) =~= acc_5_50());
}

proof fn lemma_acc_5_51()
    ensures
        shift_add_mul(alpha_spec(), alpha_pow_5(), 51) == acc_5_51(),
{
    lemma_acc_5_50();
    lemma_alpha_x_50();
    lemma_alpha_byte_facts();
    reveal(bytes_p_5_51);
    reveal(alpha_pow_5);
    reveal(acc_5_50);
    reveal(acc_5_51);
    reveal(alpha_x_50);
    assert(bits_of_bytes(alpha_pow_5())[50] == bit_of(43u8, 2));
    assert(shift_add_mul(alpha_spec(), alpha_pow_5(), 51) =~= acc_5_51());
}

proof fn lemma_acc_5_52()
    ensures
        shift_add_mul(alpha_spec(), alpha_pow_5(), 52) == acc_5_52(),
{
    lemma_acc_5_51();
    lemma_alpha_x_51();
    lemma_alpha_byte_facts();
    reveal(bytes_p_5_52);
    reveal(alpha_pow_5);
    reveal(acc_5_51);
    reveal(acc_5_52);
    reveal(alpha_x_51);
    assert(bits_of_bytes(alpha_pow_5())[51] == bit_of(43u8, 3));
    assert(shift_add_mul(alpha_spec(), alpha_pow_5(), 52) =~= acc_5_52());
}

proof fn lemma_acc_5_53()
    ensures
        shift_add_mul(alpha_spec(), alpha_pow_5(), 53) == acc_5_53(),
{
    lemma_acc_5_52();
    lemma_alpha_x_52();
    lemma_alpha_byte_facts();
    reveal(bytes_p_5_53);
    reveal(alpha_pow_5);
    reveal(acc_5_52);
    reveal(acc_5_53);
    reveal(alpha_x_52);
    assert(bits_of_bytes(alpha_pow_5())[52] == bit_of(43u8, 4));
    assert(shift_add_mul(alpha_spec(), alpha_pow_5(), 53) =~= acc_5_53());
}

proof fn lemma_acc_5_54()
    ensures
        shift_add_mul(alpha_spec(), alpha_pow_5(), 54) == acc_5_54(),
{
    lemma_acc_5_53();
    lemma_alpha_x_53();
    lemma_alpha_byte_facts();
    reveal(bytes_p_5_54);
    reveal(alpha_pow_5);
    reveal(acc_5_53);
    reveal(acc_5_54);
    reveal(alpha_x_53);
    assert(bits_of_bytes(alpha_pow_5())[53] == bit_of(43u8, 5));
    assert(shift_add_mul(alpha_spec(), alpha_pow_5(), 54) =~= acc_5_54());
}

proof fn lemma_acc_5_55()
    ensures
        shift_add_mul(alpha_spec(), alpha_pow_5(), 55) == acc_5_55(),
{
    lemma_acc_5_54();
    lemma_alpha_x_54();
    lemma_alpha_byte_facts();
    reveal(bytes_p_5_55);
    reveal(alpha_pow_5);
    reveal(acc_5_54);
    reveal(acc_5_55);
    reveal(alpha_x_54);
    assert(bits_of_bytes(alpha_pow_5())[54] == bit_of(43u8, 6));
    assert(shift_add_mul(alpha_spec(), alpha_pow_5(), 55) =~= acc_5_55());
}

proof fn lemma_acc_5_56()
    ensures
        shift_add_mul(alpha_spec(), alpha_pow_5(), 56) == acc_5_56(),
{
    lemma_acc_5_55();
    lemma_alpha_x_55();
    lemma_alpha_byte_facts();
    reveal(bytes_p_5_56);
    reveal(alpha_pow_5);
    reveal(acc_5_55);
    reveal(acc_5_56);
    reveal(alpha_x_55);
    assert(bits_of_bytes(alpha_pow_5())[55] == bit_of(43u8, 7));
    assert(shift_add_mul(alpha_spec(), alpha_pow_5(), 56) =~= acc_5_56());
}

proof fn lemma_acc_5_57()
    ensures
        shift_add_mul(alpha_spec(), alpha_pow_5(), 57) == acc_5_57(),
{
    lemma_acc_5_56();
    lemma_alpha_x_56();
    lemma_alpha_byte_facts();
    reveal(bytes_p_5_57);
    reveal(alpha_pow_5);
    reveal(acc_5_56);
    reveal(acc_5_57);
    reveal(alpha_x_56);
    assert(bits_of_bytes(alpha_pow_5())[56] == bit_of(37u8, 0));
    assert(shift_add_mul(alpha_spec(), alpha_pow_5(), 57) =~= acc_5_57());
}

proof fn lemma_acc_5_58()
    ensures
        shift_add_mul(alpha_spec(), alpha_pow_5(), 58) == acc_5_58(),
{
    lemma_acc_5_57();
    lemma_alpha_x_57();
    lemma_alpha_byte_facts();
    reveal(bytes_p_5_58);
    reveal(alpha_pow_5);
    reveal(acc_5_57);
    reveal(acc_5_58);
    reveal(alpha_x_57);
    assert(bits_of_bytes(alpha_pow_5())[57] == bit_of(37u8, 1));
    assert(shift_add_mul(alpha_spec(), alpha_pow_5(), 58) =~= acc_5_58());
}

proof fn lemma_acc_5_59()
    ensures
        shift_add_mul(alpha_spec(), alpha_pow_5(), 59) == acc_5_59(),
{
    lemma_acc_5_58();
    lemma_alpha_x_58();
    lemma_alpha_byte_facts();
    reveal(bytes_p_5_59);
    reveal(alpha_pow_5);
    reveal(acc_5_58);
    reveal(acc_5_59);
    reveal(alpha_x_58);
    assert(bits_of_bytes(alpha_pow_5())[58] == bit_of(37u8, 2));
    assert(shift_add_mul(alpha_spec(), alpha_pow_5(), 59) =~= acc_5_59());
}

proof fn lemma_acc_5_60()
    ensures
        shift_add_mul(alpha_spec(), alpha_pow_5(), 60) == acc_5_60(),
{
    lemma_acc_5_59();
    lemma_alpha_x_59();
    lemma_alpha_byte_facts();
    reveal(bytes_p_5_60);
    reveal(alpha_pow_5);
    reveal(acc_5_59);
    reveal(acc_5_60);
    reveal(alpha_x_59);
    assert(bits_of_bytes(alpha_pow_5())[59] == bit_of(37u8, 3));
    assert(shift_add_mul(alpha_spec(), alpha_pow_5(), 60) =~= acc_5_60());
}

proof fn lemma_acc_5_61()
    ensures
        shift_add_mul(alpha_spec(), alpha_pow_5(), 61) == acc_5_61(),
{
    lemma_acc_5_60();
    lemma_alpha_x_60();
    lemma_alpha_byte_facts();
    reveal(bytes_p_5_61);
    reveal(alpha_pow_5);
    reveal(acc_5_60);
    reveal(acc_5_61);
    reveal(alpha_x_60);
    assert(bits_of_bytes(alpha_pow_5())[60] == bit_of(37u8, 4));
    assert(shift_add_mul(alpha_spec(), alpha_pow_5(), 61) =~= acc_5_61());
}

proof fn lemma_acc_5_62()
    ensures
        shift_add_mul(alpha_spec(), alpha_pow_5(), 62) == acc_5_62(),
{
    lemma_acc_5_61();
    lemma_alpha_x_61();
    lemma_alpha_byte_facts();
    reveal(bytes_p_5_62);
    reveal(alpha_pow_5);
    reveal(acc_5_61);
    reveal(acc_5_62);
    reveal(alpha_x_61);
    assert(bits_of_bytes(alpha_pow_5())[61] == bit_of(37u8, 5));
    assert(shift_add_mul(alpha_spec(), alpha_pow_5(), 62) =~= acc_5_62());
}

proof fn lemma_acc_5_63()
    ensures
        shift_add_mul(alpha_spec(), alpha_pow_5(), 63) == acc_5_63(),
{
    lemma_acc_5_62();
    lemma_alpha_x_62();
    lemma_alpha_byte_facts();
    reveal(bytes_p_5_63);
    reveal(alpha_pow_5);
    reveal(acc_5_62);
    reveal(acc_5_63);
    reveal(alpha_x_62);
    assert(bits_of_bytes(alpha_pow_5())[62] == bit_of(37u8, 6));
    assert(shift_add_mul(alpha_spec(), alpha_pow_5(), 63) =~= acc_5_63());
}

proof fn lemma_acc_5_64()
    ensures
        shift_add_mul(alpha_spec(), alpha_pow_5(), 64) == acc_5_64(),
{
    lemma_acc_5_63();
    lemma_alpha_x_63();
    lemma_alpha_byte_facts();
    reveal(bytes_p_5_64);
    reveal(alpha_pow_5);
    reveal(acc_5_63);
    reveal(acc_5_64);
    reveal(alpha_x_63);
    assert(bits_of_bytes(alpha_pow_5())[63] == bit_of(37u8, 7));
    assert(shift_add_mul(alpha_spec(), alpha_pow_5(), 64) =~= acc_5_64());
}

proof fn lemma_acc_5_65()
    ensures
        shift_add_mul(alpha_spec(), alpha_pow_5(), 65) == acc_5_65(),
{
    lemma_acc_5_64();
    lemma_alpha_x_64();
    lemma_alpha_byte_facts();
    reveal(bytes_p_5_65);
    reveal(alpha_pow_5);
    reveal(acc_5_64);
    reveal(acc_5_65);
    reveal(alpha_x_64);
    assert(bits_of_bytes(alpha_pow_5())[64] == bit_of(165u8, 0));
    assert(shift_add_mul(alpha_spec(), alpha_pow_5(), 65) =~= acc_5_65());
}

proof fn lemma_acc_5_66()
    ensures
        shift_add_mul(alpha_spec(), alpha_pow_5(), 66) == acc_5_66(),
{
    lemma_acc_5_65();
    lemma_alpha_x_65();
    lemma_alpha_byte_facts();
    reveal(bytes_p_5_66);
    reveal(alpha_pow_5);
    reveal(acc_5_65);
    reveal(acc_5_66);
    reveal(alpha_x_65);
    assert(bits_of_bytes(alpha_pow_5())[65] == bit_of(165u8, 1));
    assert(shift_add_mul(alpha_spec(), alpha_pow_5(), 66) =~= acc_5_66());
}

proof fn lemma_acc_5_67()
    ensures
        shift_add_mul(alpha_spec(), alpha_pow_5(), 67) == acc_5_67(),
{
    lemma_acc_5_66();
    lemma_alpha_x_66();
    lemma_alpha_byte_facts();
    reveal(bytes_p_5_67);
    reveal(alpha_pow_5);
    reveal(acc_5_66);
    reveal(acc_5_67);
    reveal(alpha_x_66);
    assert(bits_of_bytes(alpha_pow_5())[66] == bit_of(165u8, 2));
    assert(shift_add_mul(alpha_spec(), alpha_pow_5(), 67) =~= acc_5_67());
}

proof fn lemma_acc_5_68()
    ensures
        shift_add_mul(alpha_spec(), alpha_pow_5(), 68) == acc_5_68(),
{
    lemma_acc_5_67();
    lemma_alpha_x_67();
    lemma_alpha_byte_facts();
    reveal(bytes_p_5_68);
    reveal(alpha_pow_5);
    reveal(acc_5_67);
    reveal(acc_5_68);
    reveal(alpha_x_67);
    assert(bits_of_bytes(alpha_pow_5())[67] == bit_of(165u8, 3));
    assert(shift_add_mul(alpha_spec(), alpha_pow_5(), 68) =~= acc_5_68());
}

proof fn lemma_acc_5_69()
    ensures
        shift_add_mul(alpha_spec(), alpha_pow_5(), 69) == acc_5_69(),
{
    lemma_acc_5_68();
    lemma_alpha_x_68();
    lemma_alpha_byte_facts();
    reveal(bytes_p_5_69);
    reveal(alpha_pow_5);
    reveal(acc_5_68);
    reveal(acc_5_69);
    reveal(alpha_x_68);
    assert(bits_of_bytes(alpha_pow_5())[68] == bit_of(165u8, 4));
    assert(shift_add_mul(alpha_spec(), alpha_pow_5(), 69) =~= acc_5_69());
}

proof fn lemma_acc_5_70()
    ensures
        shift_add_mul(alpha_spec(), alpha_pow_5(), 70) == acc_5_70(),
{
    lemma_acc_5_69();
    lemma_alpha_x_69();
    lemma_alpha_byte_facts();
    reveal(bytes_p_5_70);
    reveal(alpha_pow_5);
    reveal(acc_5_69);
    reveal(acc_5_70);
    reveal(alpha_x_69);
    assert(bits_of_bytes(alpha_pow_5())[69] == bit_of(165u8, 5));
    assert(shift_add_mul(alpha_spec(), alpha_pow_5(), 70) =~= acc_5_70());
}

proof fn lemma_acc_5_71()
    ensures
        shift_add_mul(alpha_spec(), alpha_pow_5(), 71) == acc_5_71(),
{
    lemma_acc_5_70();
    lemma_alpha_x_70();
    lemma_alpha_byte_facts();
    reveal(bytes_p_5_71);
    reveal(alpha_pow_5);
    reveal(acc_5_70);
    reveal(acc_5_71);
    reveal(alpha_x_70);
    assert(bits_of_bytes(alpha_pow_5())[70] == bit_of(165u8, 6));
    assert(shift_add_mul(alpha_spec(), alpha_pow_5(), 71) =~= acc_5_71());
}

proof fn lemma_acc_5_72()
    ensures
        shift_add_mul(alpha_spec(), alpha_pow_5(), 72) == acc_5_72(),
{
    lemma_acc_5_71();
    lemma_alpha_x_71();
    lemma_alpha_byte_facts();
    reveal(bytes_p_5_72);
    reveal(alpha_pow_5);
    reveal(acc_5_71);
    reveal(acc_5_72);
    reveal(alpha_x_71);
    assert(bits_of_bytes(alpha_pow_5())[71] == bit_of(165u8, 7));
    assert(shift_add_mul(alpha_spec(), alpha_pow_5(), 72) =~= acc_5_72());
}

proof fn lemma_acc_5_73()
    ensures
        shift_add_mul(alpha_spec(), alpha_pow_5(), 73) == acc_5_73(),
{
    lemma_acc_5_72();
    lemma_alpha_x_72();
    lemma_alpha_byte_facts();
    reveal(bytes_p_5_73);
    reveal(alpha_pow_5);
    reveal(acc_5_72);
    reveal(acc_5_73);
    reveal(alpha_x_72);
    assert(bits_of_bytes(alpha_pow_5())[72] == bit_of(222u8, 0));
    assert(shift_add_mul(alpha_spec(), alpha_pow_5(), 73) =~= acc_5_73());
}

proof fn lemma_acc_5_74()
    ensures
        shift_add_mul(alpha_spec(), alpha_pow_5(), 74) == acc_5_74(),
{
    lemma_acc_5_73();
    lemma_alpha_x_73();
    lemma_alpha_byte_facts();
    reveal(bytes_p_5_74);
    reveal(alpha_pow_5);
    reveal(acc_5_73);
    reveal(acc_5_74);
    reveal(alpha_x_73);
    assert(bits_of_bytes(alpha_pow_5())[73] == bit_of(222u8, 1));
    assert(shift_add_mul(alpha_spec(), alpha_pow_5(), 74) =~= acc_5_74());
}

proof fn lemma_acc_5_75()
    ensures
        shift_add_mul(alpha_spec(), alpha_pow_5(), 75) == acc_5_75(),
{
    lemma_acc_5_74();
    lemma_alpha_x_74();
    lemma_alpha_byte_facts();
    reveal(bytes_p_5_75);
    reveal(alpha_pow_5);
    reveal(acc_5_74);
    reveal(acc_5_75);
    reveal(alpha_x_74);
    assert(bits_of_bytes(alpha_pow_5())[74] == bit_of(222u8, 2));
    assert(shift_add_mul(alpha_spec(), alpha_pow_5(), 75) =~= acc_5_75());
}

proof fn lemma_acc_5_76()
    ensures
        shift_add_mul(alpha_spec(), alpha_pow_5(), 76) == acc_5_76(),
{
    lemma_acc_5_75();
    lemma_alpha_x_75();
    lemma_alpha_byte_facts();
    reveal(bytes_p_5_76);
    reveal(alpha_pow_5);
    reveal(acc_5_75);
    reveal(acc_5_76);
    reveal(alpha_x_75);
    assert(bits_of_bytes(alpha_pow_5())[75] == bit_of(222u8, 3));
    assert(shift_add_mul(alpha_spec(), alpha_pow_5(), 76) =~= acc_5_76());
}

proof fn lemma_acc_5_77()
    ensures
        shift_add_mul(alpha_spec(), alpha_pow_5(), 77) == acc_5_77(),
{
    lemma_acc_5_76();
    lemma_alpha_x_76();
    lemma_alpha_byte_facts();
    reveal(bytes_p_5_77);
    reveal(alpha_pow_5);
    reveal(acc_5_76);
    reveal(acc_5_77);
    reveal(alpha_x_76);
    assert(bits_of_bytes(alpha_pow_5())[76] == bit_of(222u8, 4));
    assert(shift_add_mul(alpha_spec(), alpha_pow_5(), 77) =~= acc_5_77());
}

proof fn lemma_acc_5_78()
    ensures
        shift_add_mul(alpha_spec(), alpha_pow_5(), 78) == acc_5_78(),
{
    lemma_acc_5_77();
    lemma_alpha_x_77();
    lemma_alpha_byte_facts();
    reveal(bytes_p_5_78);
    reveal(alpha_pow_5);
    reveal(acc_5_77);
    reveal(acc_5_78);
    reveal(alpha_x_77);
    assert(bits_of_bytes(alpha_pow_5())[77] == bit_of(222u8, 5));
    assert(shift_add_mul(alpha_spec(), alpha_pow_5(), 78) =~= acc_5_78());
}

proof fn lemma_acc_5_79()
    ensures
        shift_add_mul(alpha_spec(), alpha_pow_5(), 79) == acc_5_79(),
{
    lemma_acc_5_78();
    lemma_alpha_x_78();
    lemma_alpha_byte_facts();
    reveal(bytes_p_5_79);
    reveal(alpha_pow_5);
    reveal(acc_5_78);
    reveal(acc_5_79);
    reveal(alpha_x_78);
    assert(bits_of_bytes(alpha_pow_5())[78] == bit_of(222u8, 6));
    assert(shift_add_mul(alpha_spec(), alpha_pow_5(), 79) =~= acc_5_79());
}

proof fn lemma_acc_5_80()
    ensures
        shift_add_mul(alpha_spec(), alpha_pow_5(), 80) == acc_5_80(),
{
    lemma_acc_5_79();
    lemma_alpha_x_79();
    lemma_alpha_byte_facts();
    reveal(bytes_p_5_80);
    reveal(alpha_pow_5);
    reveal(acc_5_79);
    reveal(acc_5_80);
    reveal(alpha_x_79);
    assert(bits_of_bytes(alpha_pow_5())[79] == bit_of(222u8, 7));
    assert(shift_add_mul(alpha_spec(), alpha_pow_5(), 80) =~= acc_5_80());
}

proof fn lemma_acc_5_81()
    ensures
        shift_add_mul(alpha_spec(), alpha_pow_5(), 81) == acc_5_81(),
{
    lemma_acc_5_80();
    lemma_alpha_x_80();
    lemma_alpha_byte_facts();
    reveal(bytes_p_5_81);
    reveal(alpha_pow_5);
    reveal(acc_5_80);
    reveal(acc_5_81);
    reveal(alpha_x_80);
    assert(bits_of_bytes(alpha_pow_5())[80] == bit_of(136u8, 0));
    assert(shift_add_mul(alpha_spec(), alpha_pow_5(), 81) =~= acc_5_81());
}

proof fn lemma_acc_5_82()
    ensures
        shift_add_mul(alpha_spec(), alpha_pow_5(), 82) == acc_5_82(),
{
    lemma_acc_5_81();
    lemma_alpha_x_81();
    lemma_alpha_byte_facts();
    reveal(bytes_p_5_82);
    reveal(alpha_pow_5);
    reveal(acc_5_81);
    reveal(acc_5_82);
    reveal(alpha_x_81);
    assert(bits_of_bytes(alpha_pow_5())[81] == bit_of(136u8, 1));
    assert(shift_add_mul(alpha_spec(), alpha_pow_5(), 82) =~= acc_5_82());
}

proof fn lemma_acc_5_83()
    ensures
        shift_add_mul(alpha_spec(), alpha_pow_5(), 83) == acc_5_83(),
{
    lemma_acc_5_82();
    lemma_alpha_x_82();
    lemma_alpha_byte_facts();
    reveal(bytes_p_5_83);
    reveal(alpha_pow_5);
    reveal(acc_5_82);
    reveal(acc_5_83);
    reveal(alpha_x_82);
    assert(bits_of_bytes(alpha_pow_5())[82] == bit_of(136u8, 2));
    assert(shift_add_mul(alpha_spec(), alpha_pow_5(), 83) =~= acc_5_83());
}

proof fn lemma_acc_5_84()
    ensures
        shift_add_mul(alpha_spec(), alpha_pow_5(), 84) == acc_5_84(),
{
    lemma_acc_5_83();
    lemma_alpha_x_83();
    lemma_alpha_byte_facts();
    reveal(bytes_p_5_84);
    reveal(alpha_pow_5);
    reveal(acc_5_83);
    reveal(acc_5_84);
    reveal(alpha_x_83);
    assert(bits_of_bytes(alpha_pow_5())[83] == bit_of(136u8, 3));
    assert(shift_add_mul(alpha_spec(), alpha_pow_5(), 84) =~= acc_5_84());
}

proof fn lemma_acc_5_85()
    ensures
        shift_add_mul(alpha_spec(), alpha_pow_5(), 85) == acc_5_85(),
{
    lemma_acc_5_84();
    lemma_alpha_x_84();
    lemma_alpha_byte_facts();
    reveal(bytes_p_5_85);
    reveal(alpha_pow_5);
    reveal(acc_5_84);
    reveal(acc_5_85);
    reveal(alpha_x_84);
    assert(bits_of_bytes(alpha_pow_5())[84] == bit_of(136u8, 4));
    assert(shift_add_mul(alpha_spec(), alpha_pow_5(), 85) =~= acc_5_85());
}

proof fn lemma_acc_5_86()
    ensures
        shift_add_mul(alpha_spec(), alpha_pow_5(), 86) == acc_5_86(),
{
    lemma_acc_5_85();
    lemma_alpha_x_85();
    lemma_alpha_byte_facts();
    reveal(bytes_p_5_86);
    reveal(alpha_pow_5);
    reveal(acc_5_85);
    reveal(acc_5_86);
    reveal(alpha_x_85);
    assert(bits_of_bytes(alpha_pow_5())[85] == bit_of(136u8, 5));
    assert(shift_add_mul(alpha_spec(), alpha_pow_5(), 86) =~= acc_5_86());
}

proof fn lemma_acc_5_87()
    ensures
        shift_add_mul(alpha_spec(), alpha_pow_5(), 87) == acc_5_87(),
{
    lemma_acc_5_86();
    lemma_alpha_x_86();
    lemma_alpha_byte_facts();
    reveal(bytes_p_5_87);
    reveal(alpha_pow_5);
    reveal(acc_5_86);
    reveal(acc_5_87);
    reveal(alpha_x_86);
    assert(bits_of_bytes(alpha_pow_5())[86] == bit_of(136u8, 6));
    assert(shift_add_mul(alpha_spec(), alpha_pow_5(), 87) =~= acc_5_87());
}

proof fn lemma_acc_5_88()
    ensures
        shift_add_mul(alpha_spec(), alpha_pow_5(), 88) == acc_5_88(),
{
    lemma_acc_5_87();
    lemma_alpha_x_87();
    lemma_alpha_byte_facts();
    reveal(bytes_p_5_88);
    reveal(alpha_pow_5);
    reveal(acc_5_87);
    reveal(acc_5_88);
    reveal(alpha_x_87);
    assert(bits_of_bytes(alpha_pow_5())[87] == bit_of(136u8, 7));
    assert(shift_add_mul(alpha_spec(), alpha_pow_5(), 88) =~= acc_5_88());
}

proof fn lemma_acc_5_89()
    ensures
        shift_add_mul(alpha_spec(), alpha_pow_5(), 89) == acc_5_89(),
{
    lemma_acc_5_88();
    lemma_alpha_x_88();
    lemma_alpha_byte_facts();
    reveal(bytes_p_5_89);
    reveal(alpha_pow_5);
    reveal(acc_5_88);
    reveal(acc_5_89);
    reveal(alpha_x_88);
    assert(bits_of_bytes(alpha_pow_5())[88] == bit_of(26u8, 0));
    assert(shift_add_mul(alpha_spec(), alpha_pow_5(), 89) =~= acc_5_89());
}

proof fn lemma_acc_5_90()
    ensures
        shift_add_mul(alpha_spec(), alpha_pow_5(), 90) == acc_5_90(),
{
    lemma_acc_5_89();
    lemma_alpha_x_89();
    lemma_alpha_byte_facts();
    reveal(bytes_p_5_90);
    reveal(alpha_pow_5);
    reveal(acc_5_89);
    reveal(acc_5_90);
    reveal(alpha_x_89);
    assert(bits_of_bytes(alpha_pow_5())[89] == bit_of(26u8, 1));
    assert(shift_add_mul(alpha_spec(), alpha_pow_5(), 90) =~= acc_5_90());
}

proof fn lemma_acc_5_91()
    ensures
        shift_add_mul(alpha_spec(), alpha_pow_5(), 91) == acc_5_91(),
{
    lemma_acc_5_90();
    lemma_alpha_x_90();
    lemma_alpha_byte_facts();
    reveal(bytes_p_5_91);
    reveal(alpha_pow_5);
    reveal(acc_5_90);
    reveal(acc_5_91);
    reveal(alpha_x_90);
    assert(bits_of_bytes(alpha_pow_5())[90] == bit_of(26u8, 2));
    assert(shift_add_mul(alpha_spec(), alpha_pow_5(), 91) =~= acc_5_91());
}

proof fn lemma_acc_5_92()
    ensures
        shift_add_mul(alpha_spec(), alpha_pow_5(), 92) == acc_5_92(),
{
    lemma_acc_5_91();
    lemma_alpha_x_91();
    lemma_alpha_byte_facts();
    reveal(bytes_p_5_92);
    reveal(alpha_pow_5);
    reveal(acc_5_91);
    reveal(acc_5_92);
    reveal(alpha_x_91);
    assert(bits_of_bytes(alpha_pow_5())[91] == bit_of(26u8, 3));
    assert(shift_add_mul(alpha_spec(), alpha_pow_5(), 92) =~= acc_5_92());
}

proof fn lemma_acc_5_93()
    ensures
        shift_add_mul(alpha_spec(), alpha_pow_5(), 93) == acc_5_93(),
{
    lemma_acc_5_92();
    lemma_alpha_x_92();
    lemma_alpha_byte_facts();
    reveal(bytes_p_5_93);
    reveal(alpha_pow_5);
    reveal(acc_5_92);
    reveal(acc_5_93);
    reveal(alpha_x_92);
    assert(bits_of_bytes(alpha_pow_5())[92] == bit_of(26u8, 4));
    assert(shift_add_mul(alpha_spec(), alpha_pow_5(), 93) =~= acc_5_93());
}

proof fn lemma_acc_5_94()
    ensures
        shift_add_mul(alpha_spec(), alpha_pow_5(), 94) == acc_5_94(),
{
    lemma_acc_5_93();
    lemma_alpha_x_93();
    lemma_alpha_byte_facts();
    reveal(bytes_p_5_94);
    reveal(alpha_pow_5);
    reveal(acc_5_93);
    reveal(acc_5_94);
    reveal(alpha_x_93);
    assert(bits_of_bytes(alpha_pow_5())[93] == bit_of(26u8, 5));
    assert(shift_add_mul(alpha_spec(), alpha_pow_5(), 94) =~= acc_5_94());
}

proof fn lemma_acc_5_95()
    ensures
        shift_add_mul(alpha_spec(), alpha_pow_5(), 95) == acc_5_95(),
{
    lemma_acc_5_94();
    lemma_alpha_x_94();
    lemma_alpha_byte_facts();
    reveal(bytes_p_5_95);
    reveal(alpha_pow_5);
    reveal(acc_5_94);
    reveal(acc_5_95);
    reveal(alpha_x_94);
    assert(bits_of_bytes(alpha_pow_5())[94] == bit_of(26u8, 6));
    assert(shift_add_mul(alpha_spec(), alpha_pow_5(), 95) =~= acc_5_95());
}

proof fn lemma_acc_5_96()
    ensures
        shift_add_mul(alpha_spec(), alpha_pow_5(), 96) == acc_5_96(),
{
    lemma_acc_5_95();
    lemma_alpha_x_95();
    lemma_alpha_byte_facts();
    reveal(bytes_p_5_96);
    reveal(alpha_pow_5);
    reveal(acc_5_95);
    reveal(acc_5_96);
    reveal(alpha_x_95);
    assert(bits_of_bytes(alpha_pow_5())[95] == bit_of(26u8, 7));
    assert(shift_add_mul(alpha_spec(), alpha_pow_5(), 96) =~= acc_5_96());
}

proof fn lemma_acc_5_97()
    ensures
        shift_add_mul(alpha_spec(), alpha_pow_5(), 97) == acc_5_97(),
{
    lemma_acc_5_96();
    lemma_alpha_x_96();
    lemma_alpha_byte_facts();
    reveal(bytes_p_5_97);
    reveal(alpha_pow_5);
    reveal(acc_5_96);
    reveal(acc_5_97);
    reveal(alpha_x_96);
    assert(bits_of_bytes(alpha_pow_5())[96] == bit_of(225u8, 0));
    assert(shift_add_mul(alpha_spec(), alpha_pow_5(), 97) =~= acc_5_97());
}

proof fn lemma_acc_5_98()
    ensures
        shift_add_mul(alpha_spec(), alpha_pow_5(), 98) == acc_5_98(),
{
    lemma_acc_5_97();
    lemma_alpha_x_97();
    lemma_alpha_byte_facts();
    reveal(bytes_p_5_98);
    reveal(alpha_pow_5);
    reveal(acc_5_97);
    reveal(acc_5_98);
    reveal(alpha_x_97);
    assert(bits_of_bytes(alpha_pow_5())[97] == bit_of(225u8, 1));
    assert(shift_add_mul(alpha_spec(), alpha_pow_5(), 98) =~= acc_5_98());
}

proof fn lemma_acc_5_99()
    ensures
        shift_add_mul(alpha_spec(), alpha_pow_5(), 99) == acc_5_99(),
{
    lemma_acc_5_98();
    lemma_alpha_x_98();
    lemma_alpha_byte_facts();
    reveal(bytes_p_5_99);
    reveal(alpha_pow_5);
    reveal(acc_5_98);
    reveal(acc_5_99);
    reveal(alpha_x_98);
    assert(bits_of_bytes(alpha_pow_5())[98] == bit_of(225u8, 2));
    assert(shift_add_mul(alpha_spec(), alpha_pow_5(), 99) =~= acc_5_99());
}

proof fn lemma_acc_5_100()
    ensures
        shift_add_mul(alpha_spec(), alpha_pow_5(), 100) == acc_5_100(),
{
    lemma_acc_5_99();
    lemma_alpha_x_99();
    lemma_alpha_byte_facts();
    reveal(bytes_p_5_100);
    reveal(alpha_pow_5);
    reveal(acc_5_99);
    reveal(acc_5_100);
    reveal(alpha_x_99);
    assert(bits_of_bytes(alpha_pow_5())[99] == bit_of(225u8, 3));
    assert(shift_add_mul(alpha_spec(), alpha_pow_5(), 100) =~= acc_5_100());
}

proof fn lemma_acc_5_101()
    ensures
        shift_add_mul(alpha_spec(), alpha_pow_5(), 101) == acc_5_101(),
{
    lemma_acc_5_100();
    lemma_alpha_x_100();
    lemma_alpha_byte_facts();
    reveal(bytes_p_5_101);
    reveal(alpha_pow_5);
    reveal(acc_5_100);
    reveal(acc_5_101);
    reveal(alpha_x_100);
    assert(bits_of_bytes(alpha_pow_5())[100] == bit_of(225u8, 4));
    assert(shift_add_mul(alpha_spec(), alpha_pow_5(), 101) =~= acc_5_101());
}

proof fn lemma_acc_5_102()
    ensures
        shift_add_mul(alpha_spec(), alpha_pow_5(), 102) == acc_5_102(),
{
    lemma_acc_5_101();
    lemma_alpha_x_101();
    lemma_alpha_byte_facts();
    reveal(bytes_p_5_102);
    reveal(alpha_pow_5);
    reveal(acc_5_101);
    reveal(acc_5_102);
    reveal(alpha_x_101);
    assert(bits_of_bytes(alpha_pow_5())[101] == bit_of(225u8, 5));
    assert(shift_add_mul(alpha_spec(), alpha_pow_5(), 102) =~= acc_5_102());
}

proof fn lemma_acc_5_103()
    ensures
        shift_add_mul(alpha_spec(), alpha_pow_5(), 103) == acc_5_103(),
{
    lemma_acc_5_102();
    lemma_alpha_x_102();
    lemma_alpha_byte_facts();
    reveal(bytes_p_5_103);
    reveal(alpha_pow_5);
    reveal(acc_5_102);
    reveal(acc_5_103);
    reveal(alpha_x_102);
    assert(bits_of_bytes(alpha_pow_5())[102] == bit_of(225u8, 6));
    assert(shift_add_mul(alpha_spec(), alpha_pow_5(), 103) =~= acc_5_103());
}

proof fn lemma_acc_5_104()
    ensures
        shift_add_mul(alpha_spec(), alpha_pow_5(), 104) == acc_5_104(),
{
    lemma_acc_5_103();
    lemma_alpha_x_103();
    lemma_alpha_byte_facts();
    reveal(bytes_p_5_104);
    reveal(alpha_pow_5);
    reveal(acc_5_103);
    reveal(acc_5_104);
    reveal(alpha_x_103);
    assert(bits_of_bytes(alpha_pow_5())[103] == bit_of(225u8, 7));
    assert(shift_add_mul(alpha_spec(), alpha_pow_5(), 104) =~= acc_5_104());
}

proof fn lemma_acc_5_105()
    ensures
        shift_add_mul(alpha_spec(), alpha_pow_5(), 105) == acc_5_105(),
{
    lemma_acc_5_104();
    lemma_alpha_x_104();
    lemma_alpha_byte_facts();
    reveal(bytes_p_5_105);
    reveal(alpha_pow_5);
    reveal(acc_5_104);
    reveal(acc_5_105);
    reveal(alpha_x_104);
    assert(bits_of_bytes(alpha_pow_5())[104] == bit_of(16u8, 0));
    assert(shift_add_mul(alpha_spec(), alpha_pow_5(), 105) =~= acc_5_105());
}

proof fn lemma_acc_5_106()
    ensures
        shift_add_mul(alpha_spec(), alpha_pow_5(), 106) == acc_5_106(),
{
    lemma_acc_5_105();
    lemma_alpha_x_105();
    lemma_alpha_byte_facts();
    reveal(bytes_p_5_106);
    reveal(alpha_pow_5);
    reveal(acc_5_105);
    reveal(acc_5_106);
    reveal(alpha_x_105);
    assert(bits_of_bytes(alpha_pow_5())[105] == bit_of(16u8, 1));
    assert(shift_add_mul(alpha_spec(), alpha_pow_5(), 106) =~= acc_5_106());
}

proof fn lemma_acc_5_107()
    ensures
        shift_add_mul(alpha_spec(), alpha_pow_5(), 107) == acc_5_107(),
{
    lemma_acc_5_106();
    lemma_alpha_x_106();
    lemma_alpha_byte_facts();
    reveal(bytes_p_5_107);
    reveal(alpha_pow_5);
    reveal(acc_5_106);
    reveal(acc_5_107);
    reveal(alpha_x_106);
    assert(bits_of_bytes(alpha_pow_5())[106] == bit_of(16u8, 2));
    assert(shift_add_mul(alpha_spec(), alpha_pow_5(), 107) =~= acc_5_107());
}

proof fn lemma_acc_5_108()
    ensures
        shift_add_mul(alpha_spec(), alpha_pow_5(), 108) == acc_5_108(),
{
    lemma_acc_5_107();
    lemma_alpha_x_107();
    lemma_alpha_byte_facts();
    reveal(bytes_p_5_108);
    reveal(alpha_pow_5);
    reveal(acc_5_107);
    reveal(acc_5_108);
    reveal(alpha_x_107);
    assert(bits_of_bytes(alpha_pow_5())[107] == bit_of(16u8, 3));
    assert(shift_add_mul(alpha_spec(), alpha_pow_5(), 108) =~= acc_5_108());
}

proof fn lemma_acc_5_109()
    ensures
        shift_add_mul(alpha_spec(), alpha_pow_5(), 109) == acc_5_109(),
{
    lemma_acc_5_108();
    lemma_alpha_x_108();
    lemma_alpha_byte_facts();
    reveal(bytes_p_5_109);
    reveal(alpha_pow_5);
    reveal(acc_5_108);
    reveal(acc_5_109);
    reveal(alpha_x_108);
    assert(bits_of_bytes(alpha_pow_5())[108] == bit_of(16u8, 4));
    assert(shift_add_mul(alpha_spec(), alpha_pow_5(), 109) =~= acc_5_109());
}

proof fn lemma_acc_5_110()
    ensures
        shift_add_mul(alpha_spec(), alpha_pow_5(), 110) == acc_5_110(),
{
    lemma_acc_5_109();
    lemma_alpha_x_109();
    lemma_alpha_byte_facts();
    reveal(bytes_p_5_110);
    reveal(alpha_pow_5);
    reveal(acc_5_109);
    reveal(acc_5_110);
    reveal(alpha_x_109);
    assert(bits_of_bytes(alpha_pow_5())[109] == bit_of(16u8, 5));
    assert(shift_add_mul(alpha_spec(), alpha_pow_5(), 110) =~= acc_5_110());
}

proof fn lemma_acc_5_111()
    ensures
        shift_add_mul(alpha_spec(), alpha_pow_5(), 111) == acc_5_111(),
{
    lemma_acc_5_110();
    lemma_alpha_x_110();
    lemma_alpha_byte_facts();
    reveal(bytes_p_5_111);
    reveal(alpha_pow_5);
    reveal(acc_5_110);
    reveal(acc_5_111);
    reveal(alpha_x_110);
    assert(bits_of_bytes(alpha_pow_5())[110] == bit_of(16u8, 6));
    assert(shift_add_mul(alpha_spec(), alpha_pow_5(), 111) =~= acc_5_111());
}

proof fn lemma_acc_5_112()
    ensures
        shift_add_mul(alpha_spec(), alpha_pow_5(), 112) == acc_5_112(),
{
    lemma_acc_5_111();
    lemma_alpha_x_111();
    lemma_alpha_byte_facts();
    reveal(bytes_p_5_112);
    reveal(alpha_pow_5);
    reveal(acc_5_111);
    reveal(acc_5_112);
    reveal(alpha_x_111);
    assert(bits_of_bytes(alpha_pow_5())[111] == bit_of(16u8, 7));
    assert(shift_add_mul(alpha_spec(), alpha_pow_5(), 112) =~= acc_5_112());
}

proof fn lemma_acc_5_113()
    ensures
        shift_add_mul(alpha_spec(), alpha_pow_5(), 113) == acc_5_113(),
{
    lemma_acc_5_112();
    lemma_alpha_x_112();
    lemma_alpha_byte_facts();
    reveal(bytes_p_5_113);
    reveal(alpha_pow_5);
    reveal(acc_5_112);
    reveal(acc_5_113);
    reveal(alpha_x_112);
    assert(bits_of_bytes(alpha_pow_5())[112] == bit_of(152u8, 0));
    assert(shift_add_mul(alpha_spec(), alpha_pow_5(), 113) =~= acc_5_113());
}

proof fn lemma_acc_5_114()
    ensures
        shift_add_mul(alpha_spec(), alpha_pow_5(), 114) == acc_5_114(),
{
    lemma_acc_5_113();
    lemma_alpha_x_113();
    lemma_alpha_byte_facts();
    reveal(bytes_p_5_114);
    reveal(alpha_pow_5);
    reveal(acc_5_113);
    reveal(acc_5_114);
    reveal(alpha_x_113);
    assert(bits_of_bytes(alpha_pow_5())[113] == bit_of(152u8, 1));
    assert(shift_add_mul(alpha_spec(), alpha_pow_5(), 114) =~= acc_5_114());
}

proof fn lemma_acc_5_115()
    ensures
        shift_add_mul(alpha_spec(), alpha_pow_5(), 115) == acc_5_115(),
{
    lemma_acc_5_114();
    lemma_alpha_x_114();
    lemma_alpha_byte_facts();
    reveal(bytes_p_5_115);
    reveal(alpha_pow_5);
    reveal(acc_5_114);
    reveal(acc_5_115);
    reveal(alpha_x_114);
    assert(bits_of_bytes(alpha_pow_5())[114] == bit_of(152u8, 2));
    assert(shift_add_mul(alpha_spec(), alpha_pow_5(), 115) =~= acc_5_115());
}

proof fn lemma_acc_5_116()
    ensures
        shift_add_mul(alpha_spec(), alpha_pow_5(), 116) == acc_5_116(),
{
    lemma_acc_5_115();
    lemma_alpha_x_115();
    lemma_alpha_byte_facts();
    reveal(bytes_p_5_116);
    reveal(alpha_pow_5);
    reveal(acc_5_115);
    reveal(acc_5_116);
    reveal(alpha_x_115);
    assert(bits_of_bytes(alpha_pow_5())[115] == bit_of(152u8, 3));
    assert(shift_add_mul(alpha_spec(), alpha_pow_5(), 116) =~= acc_5_116());
}

proof fn lemma_acc_5_117()
    ensures
        shift_add_mul(alpha_spec(), alpha_pow_5(), 117) == acc_5_117(),
{
    lemma_acc_5_116();
    lemma_alpha_x_116();
    lemma_alpha_byte_facts();
    reveal(bytes_p_5_117);
    reveal(alpha_pow_5);
    reveal(acc_5_116);
    reveal(acc_5_117);
    reveal(alpha_x_116);
    assert(bits_of_bytes(alpha_pow_5())[116] == bit_of(152u8, 4));
    assert(shift_add_mul(alpha_spec(), alpha_pow_5(), 117) =~= acc_5_117());
}

proof fn lemma_acc_5_118()
    ensures
        shift_add_mul(alpha_spec(), alpha_pow_5(), 118) == acc_5_118(),
{
    lemma_acc_5_117();
    lemma_alpha_x_117();
    lemma_alpha_byte_facts();
    reveal(bytes_p_5_118);
    reveal(alpha_pow_5);
    reveal(acc_5_117);
    reveal(acc_5_118);
    reveal(alpha_x_117);
    assert(bits_of_bytes(alpha_pow_5())[117] == bit_of(152u8, 5));
    assert(shift_add_mul(alpha_spec(), alpha_pow_5(), 118) =~= acc_5_118());
}

proof fn lemma_acc_5_119()
    ensures
        shift_add_mul(alpha_spec(), alpha_pow_5(), 119) == acc_5_119(),
{
    lemma_acc_5_118();
    lemma_alpha_x_118();
    lemma_alpha_byte_facts();
    reveal(bytes_p_5_119);
    reveal(alpha_pow_5);
    reveal(acc_5_118);
    reveal(acc_5_119);
    reveal(alpha_x_118);
    assert(bits_of_bytes(alpha_pow_5())[118] == bit_of(152u8, 6));
    assert(shift_add_mul(alpha_spec(), alpha_pow_5(), 119) =~= acc_5_119());
}

proof fn lemma_acc_5_120()
    ensures
        shift_add_mul(alpha_spec(), alpha_pow_5(), 120) == acc_5_120(),
{
    lemma_acc_5_119();
    lemma_alpha_x_119();
    lemma_alpha_byte_facts();
    reveal(bytes_p_5_120);
    reveal(alpha_pow_5);
    reveal(acc_5_119);
    reveal(acc_5_120);
    reveal(alpha_x_119);
    assert(bits_of_bytes(alpha_pow_5())[119] == bit_of(152u8, 7));
    assert(shift_add_mul(alpha_spec(), alpha_pow_5(), 120) =~= acc_5_120());
}

proof fn lemma_acc_5_121()
    ensures
        shift_add_mul(alpha_spec(), alpha_pow_5(), 121) == acc_5_121(),
{
    lemma_acc_5_120();
    lemma_alpha_x_120();
    lemma_alpha_byte_facts();
    reveal(bytes_p_5_121);
    reveal(alpha_pow_5);
    reveal(acc_5_120);
    reveal(acc_5_121);
    reveal(alpha_x_120);
    assert(bits_of_bytes(alpha_pow_5())[120] == bit_of(84u8, 0));
    assert(shift_add_mul(alpha_spec(), alpha_pow_5(), 121) =~= acc_5_121());
}

proof fn lemma_acc_5_122()
    ensures
        shift_add_mul(alpha_spec(), alpha_pow_5(), 122) == acc_5_122(),
{
    lemma_acc_5_121();
    lemma_alpha_x_121();
    lemma_alpha_byte_facts();
    reveal(bytes_p_5_122);
    reveal(alpha_pow_5);
    reveal(acc_5_121);
    reveal(acc_5_122);
    reveal(alpha_x_121);
    assert(bits_of_bytes(alpha_pow_5())[121] == bit_of(84u8, 1));
    assert(shift_add_mul(alpha_spec(), alpha_pow_5(), 122) =~= acc_5_122());
}

proof fn lemma_acc_5_123()
    ensures
        shift_add_mul(alpha_spec(), alpha_pow_5(), 123) == acc_5_123(),
{
    lemma_acc_5_122();
    lemma_alpha_x_122();
    lemma_alpha_byte_facts();
    reveal(bytes_p_5_123);
    reveal(alpha_pow_5);
    reveal(acc_5_122);
    reveal(acc_5_123);
    reveal(alpha_x_122);
    assert(bits_of_bytes(alpha_pow_5())[122] == bit_of(84u8, 2));
    assert(shift_add_mul(alpha_spec(), alpha_pow_5(), 123) =~= acc_5_123());
}

proof fn lemma_acc_5_124()
    ensures
        shift_add_mul(alpha_spec(), alpha_pow_5(), 124) == acc_5_124(),
{
    lemma_acc_5_123();
    lemma_alpha_x_123();
    lemma_alpha_byte_facts();
    reveal(bytes_p_5_124);
    reveal(alpha_pow_5);
    reveal(acc_5_123);
    reveal(acc_5_124);
    reveal(alpha_x_123);
    assert(bits_of_bytes(alpha_pow_5())[123] == bit_of(84u8, 3));
    assert(shift_add_mul(alpha_spec(), alpha_pow_5(), 124) =~= acc_5_124());
}

proof fn lemma_acc_5_125()
    ensures
        shift_add_mul(alpha_spec(), alpha_pow_5(), 125) == acc_5_125(),
{
    lemma_acc_5_124();
    lemma_alpha_x_124();
    lemma_alpha_byte_facts();
    reveal(bytes_p_5_125);
    reveal(alpha_pow_5);
    reveal(acc_5_124);
    reveal(acc_5_125);
    reveal(alpha_x_124);
    assert(bits_of_bytes(alpha_pow_5())[124] == bit_of(84u8, 4));
    assert(shift_add_mul(alpha_spec(), alpha_pow_5(), 125) =~= acc_5_125());
}

proof fn lemma_acc_5_126()
    ensures
        shift_add_mul(alpha_spec(), alpha_pow_5(), 126) == acc_5_126(),
{
    lemma_acc_5_125();
    lemma_alpha_x_125();
    lemma_alpha_byte_facts();
    reveal(bytes_p_5_126);
    reveal(alpha_pow_5);
    reveal(acc_5_125);
    reveal(acc_5_126);
    reveal(alpha_x_125);
    assert(bits_of_bytes(alpha_pow_5())[125] == bit_of(84u8, 5));
    assert(shift_add_mul(alpha_spec(), alpha_pow_5(), 126) =~= acc_5_126());
}

proof fn lemma_acc_5_127()
    ensures
        shift_add_mul(alpha_spec(), alpha_pow_5(), 127) == acc_5_127(),
{
    lemma_acc_5_126();
    lemma_alpha_x_126();
    lemma_alpha_byte_facts();
    reveal(bytes_p_5_127);
    reveal(alpha_pow_5);
    reveal(acc_5_126);
    reveal(acc_5_127);
    reveal(alpha_x_126);
    assert(bits_of_bytes(alpha_pow_5())[126] == bit_of(84u8, 6));
    assert(shift_add_mul(alpha_spec(), alpha_pow_5(), 127) =~= acc_5_127());
}

proof fn lemma_acc_5_128()
    ensures
        shift_add_mul(alpha_spec(), alpha_pow_5(), 128) == acc_5_128(),
{
    lemma_acc_5_127();
    lemma_alpha_x_127();
    lemma_alpha_byte_facts();
    reveal(bytes_p_5_128);
    reveal(alpha_pow_5);
    reveal(acc_5_127);
    reveal(acc_5_128);
    reveal(alpha_x_127);
    assert(bits_of_bytes(alpha_pow_5())[127] == bit_of(84u8, 7));
    assert(shift_add_mul(alpha_spec(), alpha_pow_5(), 128) =~= acc_5_128());
}

#[verifier::opaque]
spec fn acc_6_0() -> Seq<u8> {
    seq![0u8, 0u8, 0u8, 0u8, 0u8, 0u8, 0u8, 0u8, 0u8, 0u8, 0u8, 0u8, 0u8, 0u8, 0u8, 0u8]
}

#[verifier::opaque]
spec fn acc_6_1() -> Seq<u8> {
    seq![0u8, 0u8, 0u8, 0u8, 0u8, 0u8, 0u8, 0u8, 0u8, 0u8, 0u8, 0u8, 0u8, 0u8, 0u8, 0u8]
}

#[verifier::opaque]
spec fn acc_6_2() -> Seq<u8> {
    seq![26u8, 156u8, 193u8, 170u8, 88u8, 209u8, 127u8, 66u8, 57u8, 52u8, 47u8, 83u8, 171u8, 10u8, 123u8, 10u8]
}

#[verifier::opaque]
spec fn acc_6_3() -> Seq<u8> {
    seq![26u8, 156u8, 193u8, 170u8, 88u8, 209u8, 127u8, 66u8, 57u8, 52u8, 47u8, 83u8, 171u8, 10u8, 123u8, 10u8]
}

#[verifier::opaque]
spec fn acc_6_4() -> Seq<u8> {
    seq![26u8, 156u8, 193u8, 170u8, 88u8, 209u8, 127u8, 66u8, 57u8, 52u8, 47u8, 83u8, 171u8, 10u8, 123u8, 10u8]
}

#[verifier::opaque]
spec fn acc_6_5() -> Seq<u8> {
    seq![26u8, 156u8, 193u8, 170u8, 88u8, 209u8, 127u8, 66u8, 57u8, 52u8, 47u8, 83u8, 171u8, 10u8, 123u8, 10u8]
}

#[verifier::opaque]
spec fn acc_6_6() -> Seq<u8> {
    seq![186u8, 93u8, 216u8, 6u8, 210u8, 196u8, 130u8, 101u8, 173u8, 119u8, 220u8, 97u8, 30u8, 160u8, 203u8, 173u8]
}

#[verifier::opaque]
spec fn acc_6_7() -> Seq<u8> {
    seq![186u8, 93u8, 216u8, 6u8, 210u8, 196u8, 130u8, 101u8, 173u8, 119u8, 220u8, 97u8, 30u8, 160u8, 203u8, 173u8]
}

#[verifier::opaque]
spec fn acc_6_8() -> Seq<u8> {
    seq![186u8, 93u8, 216u8, 6u8, 210u8, 196u8, 130u8, 101u8, 173u8, 119u8, 220u8, 97u8, 30u8, 160u8, 203u8, 173u8]
}

#[verifier::opaque]
spec fn acc_6_9() -> Seq<u8> {
    seq![33u8, 82u8, 22u8, 102u8, 135u8, 104u8, 106u8, 90u8, 12u8, 107u8, 70u8, 246u8, 183u8, 245u8, 78u8, 144u8]
}

#[verifier::opaque]
spec fn acc_6_10() -> Seq<u8> {
    seq![23u8, 77u8, 138u8, 167u8, 45u8, 48u8, 187u8, 37u8, 78u8, 82u8, 114u8, 217u8, 228u8, 94u8, 68u8, 235u8]
}

#[verifier::opaque]
spec fn acc_6_11() -> Seq<u8> {
    seq![123u8, 115u8, 178u8, 36u8, 120u8, 129u8, 25u8, 218u8, 202u8, 32u8, 26u8, 135u8, 66u8, 8u8, 81u8, 29u8]
}

#[verifier::opaque]
spec fn acc_6_12() -> Seq<u8> {
    seq![36u8, 15u8, 194u8, 34u8, 211u8, 227u8, 92u8, 37u8, 195u8, 197u8, 202u8, 59u8, 14u8, 165u8, 123u8, 241u8]
}

#[verifier::opaque]
spec fn acc_6_13() -> Seq<u8> {
    seq![29u8, 247u8, 34u8, 46u8, 133u8, 38u8, 214u8, 219u8, 208u8, 15u8, 107u8, 66u8, 151u8, 255u8, 46u8, 41u8]
}

#[verifier::opaque]
spec fn acc_6_14() -> Seq<u8> {
    seq![232u8, 7u8, 227u8, 55u8, 41u8, 172u8, 195u8, 38u8, 247u8, 155u8, 40u8, 177u8, 165u8, 74u8, 132u8, 153u8]
}

#[verifier::opaque]
spec fn acc_6_15() -> Seq<u8> {
    seq![133u8, 230u8, 96u8, 4u8, 113u8, 185u8, 232u8, 220u8, 184u8, 179u8, 175u8, 87u8, 192u8, 32u8, 209u8, 248u8]
}

#[verifier::opaque]
spec fn acc_6_16() -> Seq<u8> {
    seq![95u8, 36u8, 103u8, 99u8, 193u8, 147u8, 190u8, 40u8, 39u8, 227u8, 161u8, 154u8, 11u8, 244u8, 123u8, 58u8]
}

#[verifier::opaque]
spec fn acc_6_17() -> Seq<u8> {
    seq![108u8, 161u8, 104u8, 173u8, 161u8, 198u8, 18u8, 192u8, 24u8, 66u8, 189u8, 0u8, 156u8, 93u8, 46u8, 191u8]
}

#[verifier::opaque]
spec fn acc_6_18() -> Seq<u8> {
    seq![108u8, 161u8, 104u8, 173u8, 161u8, 198u8, 18u8, 192u8, 24u8, 66u8, 189u8, 0u8, 156u8, 93u8, 46u8, 191u8]
}

#[verifier::opaque]
spec fn acc_6_19() -> Seq<u8> {
    seq![108u8, 161u8, 104u8, 173u8, 161u8, 198u8, 18u8, 192u8, 24u8, 66u8, 189u8, 0u8, 156u8, 93u8, 46u8, 191u8]
}

#[verifier::opaque]
spec fn acc_6_20() -> Seq<u8> {
    seq![108u8, 161u8, 104u8, 173u8, 161u8, 198u8, 18u8, 192u8, 24u8, 66u8, 189u8, 0u8, 156u8, 93u8, 46u8, 191u8]
}

#[verifier::opaque]
spec fn acc_6_21() -> Seq<u8> {
    seq![108u8, 161u8, 104u8, 173u8, 161u8, 198u8, 18u8, 192u8, 24u8, 66u8, 189u8, 0u8, 156u8, 93u8, 46u8, 191u8]
}

#[verifier::opaque]
spec fn acc_6_22() -> Seq<u8> {
    seq![124u8, 15u8, 152u8, 108u8, 184u8, 106u8, 152u8, 213u8, 229u8, 101u8, 41u8, 67u8, 111u8, 111u8, 155u8, 21u8]
}

#[verifier::opaque]
spec fn acc_6_23() -> Seq<u8> {
    seq![124u8, 15u8, 152u8, 108u8, 184u8, 106u8, 152u8, 213u8, 229u8, 101u8, 41u8, 67u8, 111u8, 111u8, 155u8, 21u8]
}

#[verifier::opaque]
spec fn acc_6_24() -> Seq<u8> {
    seq![124u8, 15u8, 152u8, 108u8, 184u8, 106u8, 152u8, 213u8, 229u8, 101u8, 41u8, 67u8, 111u8, 111u8, 155u8, 21u8]
}

#[verifier::opaque]
spec fn acc_6_25() -> Seq<u8> {
    seq![103u8, 125u8, 29u8, 99u8, 118u8, 10u8, 205u8, 121u8, 13u8, 90u8, 136u8, 95u8, 245u8, 248u8, 50u8, 64u8]
}

#[verifier::opaque]
spec fn acc_6_26() -> Seq<u8> {
    seq![103u8, 125u8, 29u8, 99u8, 118u8, 10u8, 205u8, 121u8, 13u8, 90u8, 136u8, 95u8, 245u8, 248u8, 50u8, 64u8]
}

#[verifier::opaque]
spec fn acc_6_27() -> Seq<u8> {
    seq![140u8, 181u8, 8u8, 93u8, 78u8, 137u8, 152u8, 200u8, 175u8, 165u8, 12u8, 45u8, 157u8, 166u8, 148u8, 22u8]
}

#[verifier::opaque]
spec fn acc_6_28() -> Seq<u8> {
    seq![140u8, 181u8, 8u8, 93u8, 78u8, 137u8, 152u8, 200u8, 175u8, 165u8, 12u8, 45u8, 157u8, 166u8, 148u8, 22u8]
}

#[verifier::opaque]
spec fn acc_6_29() -> Seq<u8> {
    seq![140u8, 181u8, 8u8, 93u8, 78u8, 137u8, 152u8, 200u8, 175u8, 165u8, 12u8, 45u8, 157u8, 166u8, 148u8, 22u8]
}

#[verifier::opaque]
spec fn acc_6_30() -> Seq<u8> {
    seq![218u8, 243u8, 166u8, 173u8, 143u8, 144u8, 52u8, 66u8, 186u8, 88u8, 43u8, 185u8, 222u8, 85u8, 166u8, 163u8]
}

#[verifier::opaque]
spec fn acc_6_31() -> Seq<u8> {
    seq![218u8, 243u8, 166u8, 173u8, 143u8, 144u8, 52u8, 66u8, 186u8, 88u8, 43u8, 185u8, 222u8, 85u8, 166u8, 163u8]
}

#[verifier::opaque]
spec fn acc_6_32() -> Seq<u8> {
    seq![218u8, 243u8, 166u8, 173u8, 143u8, 144u8, 52u8, 66u8, 186u8, 88u8, 43u8, 185u8, 222u8, 85u8, 166u8, 163u8]
}

#[verifier::opaque]
spec fn acc_6_33() -> Seq<u8> {
    seq![241u8, 195u8, 212u8, 40u8, 128u8, 94u8, 84u8, 23u8, 22u8, 176u8, 20u8, 24u8, 194u8, 207u8, 49u8, 10u8]
}

#[verifier::opaque]
spec fn acc_6_34() -> Seq<u8> {
    seq![32u8, 163u8, 48u8, 34u8, 159u8, 194u8, 149u8, 189u8, 78u8, 97u8, 107u8, 90u8, 251u8, 251u8, 30u8, 89u8]
}

#[verifier::opaque]
spec fn acc_6_35() -> Seq<u8> {
    seq![130u8, 98u8, 248u8, 55u8, 161u8, 250u8, 22u8, 232u8, 255u8, 195u8, 148u8, 222u8, 137u8, 147u8, 64u8, 255u8]
}

#[verifier::opaque]
spec fn acc_6_36() -> Seq<u8> {
    seq![65u8, 225u8, 105u8, 28u8, 221u8, 138u8, 16u8, 67u8, 157u8, 134u8, 107u8, 215u8, 108u8, 67u8, 252u8, 179u8]
}

#[verifier::opaque]
spec fn acc_6_37() -> Seq<u8> {
    seq![65u8, 225u8, 105u8, 28u8, 221u8, 138u8, 16u8, 67u8, 157u8, 134u8, 107u8, 215u8, 108u8, 67u8, 252u8, 179u8]
}

#[verifier::opaque]
spec fn acc_6_38() -> Seq<u8> {
    seq![202u8, 238u8, 47u8, 178u8, 45u8, 75u8, 9u8, 239u8, 23u8, 147u8, 150u8, 240u8, 248u8, 0u8, 15u8, 129u8]
}

#[verifier::opaque]
spec fn acc_6_39() -> Seq<u8> {
    seq![220u8, 241u8, 163u8, 238u8, 204u8, 200u8, 58u8, 183u8, 2u8, 184u8, 108u8, 191u8, 208u8, 135u8, 233u8, 228u8]
}

#[verifier::opaque]
spec fn acc_6_40() -> Seq<u8> {
    seq![240u8, 207u8, 187u8, 87u8, 14u8, 207u8, 93u8, 7u8, 40u8, 238u8, 152u8, 32u8, 128u8, 137u8, 36u8, 47u8]
}

#[verifier::opaque]
spec fn acc_6_41() -> Seq<u8> {
    seq![240u8, 207u8, 187u8, 87u8, 14u8, 207u8, 93u8, 7u8, 40u8, 238u8, 152u8, 32u8, 128u8, 137u8, 36u8, 47u8]
}

#[verifier::opaque]
spec fn acc_6_42() -> Seq<u8> {
    seq![201u8, 54u8, 219u8, 179u8, 4u8, 208u8, 193u8, 198u8, 130u8, 182u8, 73u8, 95u8, 194u8, 176u8, 16u8, 0u8]
}

#[verifier::opaque]
spec fn acc_6_43() -> Seq<u8> {
    seq![201u8, 54u8, 219u8, 179u8, 4u8, 208u8, 193u8, 198u8, 130u8, 182u8, 73u8, 95u8, 194u8, 176u8, 16u8, 0u8]
}

#[verifier::opaque]
spec fn acc_6_44() -> Seq<u8> {
    seq![201u8, 54u8, 219u8, 179u8, 4u8, 208u8, 193u8, 198u8, 130u8, 182u8, 73u8, 95u8, 194u8, 176u8, 16u8, 0u8]
}

#[verifier::opaque]
spec fn acc_6_45() -> Seq<u8> {
    seq![134u8, 255u8, 220u8, 144u8, 83u8, 40u8, 33u8, 202u8, 212u8, 115u8, 195u8, 161u8, 209u8, 122u8, 177u8, 121u8]
}

#[verifier::opaque]
spec fn acc_6_46() -> Seq<u8> {
    seq![24u8, 109u8, 211u8, 214u8, 253u8, 216u8, 224u8, 211u8, 120u8, 249u8, 214u8, 92u8, 246u8, 238u8, 242u8, 138u8]
}

#[verifier::opaque]
spec fn acc_6_47() -> Seq<u8> {
    seq![163u8, 72u8, 204u8, 90u8, 161u8, 57u8, 99u8, 224u8, 32u8, 236u8, 253u8, 166u8, 185u8, 198u8, 117u8, 108u8]
}

#[verifier::opaque]
spec fn acc_6_48() -> Seq<u8> {
    seq![82u8, 3u8, 242u8, 66u8, 24u8, 251u8, 100u8, 135u8, 144u8, 198u8, 171u8, 82u8, 38u8, 150u8, 123u8, 161u8]
}

#[verifier::opaque]
spec fn acc_6_49() -> Seq<u8> {
    seq![55u8, 148u8, 142u8, 114u8, 106u8, 126u8, 107u8, 73u8, 240u8, 147u8, 7u8, 186u8, 25u8, 55u8, 103u8, 59u8]
}

#[verifier::opaque]
spec fn acc_6_50() -> Seq<u8> {
    seq![122u8, 186u8, 119u8, 18u8, 142u8, 116u8, 116u8, 213u8, 49u8, 57u8, 95u8, 107u8, 102u8, 117u8, 94u8, 15u8]
}

#[verifier::opaque]
spec fn acc_6_51() -> Seq<u8> {
    seq![122u8, 186u8, 119u8, 18u8, 142u8, 116u8, 116u8, 213u8, 49u8, 57u8, 95u8, 107u8, 102u8, 117u8, 94u8, 15u8]
}

#[verifier::opaque]
spec fn acc_6_52() -> Seq<u8> {
    seq![78u8, 3u8, 147u8, 145u8, 31u8, 95u8, 8u8, 165u8, 55u8, 146u8, 61u8, 46u8, 153u8, 124u8, 187u8, 223u8]
}

#[verifier::opaque]
spec fn acc_6_53() -> Seq<u8> {
    seq![78u8, 3u8, 147u8, 145u8, 31u8, 95u8, 8u8, 165u8, 55u8, 146u8, 61u8, 46u8, 153u8, 124u8, 187u8, 223u8]
}

#[verifier::opaque]
spec fn acc_6_54() -> Seq<u8> {
    seq![23u8, 230u8, 1u8, 158u8, 89u8, 241u8, 248u8, 100u8, 46u8, 62u8, 183u8, 59u8, 100u8, 91u8, 47u8, 156u8]
}

#[verifier::opaque]
spec fn acc_6_55() -> Seq<u8> {
    seq![23u8, 230u8, 1u8, 158u8, 89u8, 241u8, 248u8, 100u8, 46u8, 62u8, 183u8, 59u8, 100u8, 91u8, 47u8, 156u8]
}

#[verifier::opaque]
spec fn acc_6_56() -> Seq<u8> {
    seq![23u8, 230u8, 1u8, 158u8, 89u8, 241u8, 248u8, 100u8, 46u8, 62u8, 183u8, 59u8, 100u8, 91u8, 47u8, 156u8]
}

#[verifier::opaque]
spec fn acc_6_57() -> Seq<u8> {
    seq![209u8, 205u8, 150u8, 226u8, 105u8, 131u8, 125u8, 107u8, 224u8, 94u8, 226u8, 151u8, 140u8, 100u8, 142u8, 128u8]
}

#[verifier::opaque]
spec fn acc_6_58() -> Seq<u8> {
    seq![93u8, 154u8, 184u8, 27u8, 9u8, 103u8, 119u8, 116u8, 124u8, 159u8, 72u8, 207u8, 93u8, 27u8, 204u8, 185u8]
}

#[verifier::opaque]
spec fn acc_6_59() -> Seq<u8> {
    seq![69u8, 53u8, 228u8, 233u8, 200u8, 175u8, 98u8, 74u8, 68u8, 28u8, 29u8, 126u8, 255u8, 228u8, 72u8, 203u8]
}

#[verifier::opaque]
spec fn acc_6_60() -> Seq<u8> {
    seq![69u8, 53u8, 228u8, 233u8, 200u8, 175u8, 98u8, 74u8, 68u8, 28u8, 29u8, 126u8, 255u8, 228u8, 72u8, 203u8]
}

#[verifier::opaque]
spec fn acc_6_61() -> Seq<u8> {
    seq![69u8, 53u8, 228u8, 233u8, 200u8, 175u8, 98u8, 74u8, 68u8, 28u8, 29u8, 126u8, 255u8, 228u8, 72u8, 203u8]
}

#[verifier::opaque]
spec fn acc_6_62() -> Seq<u8> {
    seq![69u8, 53u8, 228u8, 233u8, 200u8, 175u8, 98u8, 74u8, 68u8, 28u8, 29u8, 126u8, 255u8, 228u8, 72u8, 203u8]
}

#[verifier::opaque]
spec fn acc_6_63() -> Seq<u8> {
    seq![80u8, 199u8, 46u8, 204u8, 215u8, 35u8, 62u8, 171u8, 199u8, 47u8, 69u8, 107u8, 212u8, 30u8, 7u8, 227u8]
}

#[verifier::opaque]
spec fn acc_6_64() -> Seq<u8> {
    seq![122u8, 35u8, 187u8, 135u8, 233u8, 59u8, 135u8, 105u8, 192u8, 72u8, 245u8, 65u8, 130u8, 234u8, 152u8, 179u8]
}

#[verifier::opaque]
spec fn acc_6_65() -> Seq<u8> {
    seq![46u8, 235u8, 144u8, 16u8, 149u8, 11u8, 245u8, 236u8, 207u8, 134u8, 149u8, 20u8, 46u8, 2u8, 167u8, 18u8]
}

#[verifier::opaque]
spec fn acc_6_66() -> Seq<u8> {
    seq![46u8, 235u8, 144u8, 16u8, 149u8, 11u8, 245u8, 236u8, 207u8, 134u8, 149u8, 20u8, 46u8, 2u8, 167u8, 18u8]
}

#[verifier::opaque]
spec fn acc_6_67() -> Seq<u8> {
    seq![112u8, 203u8, 63u8, 76u8, 103u8, 202u8, 61u8, 249u8, 241u8, 190u8, 22u8, 65u8, 159u8, 160u8, 88u8, 150u8]
}

#[verifier::opaque]
spec fn acc_6_68() -> Seq<u8> {
    seq![112u8, 203u8, 63u8, 76u8, 103u8, 202u8, 61u8, 249u8, 241u8, 190u8, 22u8, 65u8, 159u8, 160u8, 88u8, 150u8]
}

#[verifier::opaque]
spec fn acc_6_69() -> Seq<u8> {
    seq![6u8, 75u8, 131u8, 62u8, 174u8, 205u8, 30u8, 174u8, 9u8, 94u8, 26u8, 23u8, 90u8, 42u8, 166u8, 133u8]
}

#[verifier::opaque]
spec fn acc_6_70() -> Seq<u8> {
    seq![234u8, 75u8, 250u8, 219u8, 60u8, 194u8, 88u8, 0u8, 249u8, 159u8, 3u8, 187u8, 208u8, 63u8, 91u8, 162u8]
}

#[verifier::opaque]
spec fn acc_6_71() -> Seq<u8> {
    seq![50u8, 74u8, 8u8, 17u8, 25u8, 221u8, 212u8, 92u8, 24u8, 28u8, 48u8, 227u8, 197u8, 20u8, 161u8, 237u8]
}

#[verifier::opaque]
spec fn acc_6_72() -> Seq<u8> {
    seq![50u8, 74u8, 8u8, 17u8, 25u8, 221u8, 212u8, 92u8, 24u8, 28u8, 48u8, 227u8, 197u8, 20u8, 161u8, 237u8]
}

#[verifier::opaque]
spec fn acc_6_73() -> Seq<u8> {
    seq![213u8, 77u8, 192u8, 58u8, 142u8, 161u8, 228u8, 46u8, 157u8, 19u8, 254u8, 131u8, 144u8, 184u8, 73u8, 210u8]
}

#[verifier::opaque]
spec fn acc_6_74() -> Seq<u8> {
    seq![27u8, 66u8, 80u8, 109u8, 160u8, 88u8, 132u8, 202u8, 151u8, 12u8, 98u8, 66u8, 58u8, 224u8, 152u8, 173u8]
}

#[verifier::opaque]
spec fn acc_6_75() -> Seq<u8> {
    seq![135u8, 93u8, 112u8, 194u8, 252u8, 170u8, 69u8, 2u8, 130u8, 50u8, 90u8, 193u8, 111u8, 81u8, 58u8, 82u8]
}

#[verifier::opaque]
spec fn acc_6_76() -> Seq<u8> {
    seq![56u8, 98u8, 48u8, 156u8, 69u8, 78u8, 198u8, 147u8, 169u8, 78u8, 42u8, 199u8, 196u8, 51u8, 127u8, 173u8]
}

#[verifier::opaque]
spec fn acc_6_77() -> Seq<u8> {
    seq![193u8, 29u8, 176u8, 32u8, 55u8, 135u8, 193u8, 176u8, 254u8, 182u8, 202u8, 203u8, 146u8, 246u8, 245u8, 83u8]
}

#[verifier::opaque]
spec fn acc_6_78() -> Seq<u8> {
    seq![193u8, 29u8, 176u8, 32u8, 55u8, 135u8, 193u8, 176u8, 254u8, 182u8, 202u8, 203u8, 146u8, 246u8, 245u8, 83u8]
}

#[verifier::opaque]
spec fn acc_6_79() -> Seq<u8> {
    seq![193u8, 29u8, 176u8, 32u8, 55u8, 135u8, 193u8, 176u8, 254u8, 182u8, 202u8, 203u8, 146u8, 246u8, 245u8, 83u8]
}

#[verifier::opaque]
spec fn acc_6_80() -> Seq<u8> {
    seq![193u8, 29u8, 176u8, 32u8, 55u8, 135u8, 193u8, 176u8, 254u8, 182u8, 202u8, 203u8, 146u8, 246u8, 245u8, 83u8]
}

#[verifier::opaque]
spec fn acc_6_81() -> Seq<u8> {
    seq![193u8, 29u8, 176u8, 32u8, 55u8, 135u8, 193u8, 176u8, 254u8, 182u8, 202u8, 203u8, 146u8, 246u8, 245u8, 83u8]
}

#[verifier::opaque]
spec fn acc_6_82() -> Seq<u8> {
    seq![193u8, 29u8, 176u8, 32u8, 55u8, 135u8, 193u8, 176u8, 254u8, 182u8, 202u8, 203u8, 146u8, 246u8, 245u8, 83u8]
}

#[verifier::opaque]
spec fn acc_6_83() -> Seq<u8> {
    seq![188u8, 252u8, 175u8, 0u8, 152u8, 219u8, 51u8, 113u8, 54u8, 163u8, 244u8, 243u8, 17u8, 163u8, 68u8, 241u8]
}

#[verifier::opaque]
spec fn acc_6_84() -> Seq<u8> {
    seq![193u8, 62u8, 144u8, 64u8, 198u8, 98u8, 215u8, 242u8, 167u8, 136u8, 136u8, 131u8, 23u8, 8u8, 38u8, 180u8]
}

#[verifier::opaque]
spec fn acc_6_85() -> Seq<u8> {
    seq![193u8, 62u8, 144u8, 64u8, 198u8, 98u8, 215u8, 242u8, 167u8, 136u8, 136u8, 131u8, 23u8, 8u8, 38u8, 180u8]
}

#[verifier::opaque]
spec fn acc_6_86() -> Seq<u8> {
    seq![193u8, 62u8, 144u8, 64u8, 198u8, 98u8, 215u8, 242u8, 167u8, 136u8, 136u8, 131u8, 23u8, 8u8, 38u8, 180u8]
}

#[verifier::opaque]
spec fn acc_6_87() -> Seq<u8> {
    seq![193u8, 62u8, 144u8, 64u8, 198u8, 98u8, 215u8, 242u8, 167u8, 136u8, 136u8, 131u8, 23u8, 8u8, 38u8, 180u8]
}

#[verifier::opaque]
spec fn acc_6_88() -> Seq<u8> {
    seq![193u8, 62u8, 144u8, 64u8, 198u8, 98u8, 215u8, 242u8, 167u8, 136u8, 136u8, 131u8, 23u8, 8u8, 38u8, 180u8]
}

#[verifier::opaque]
spec fn acc_6_89() -> Seq<u8> {
    seq![193u8, 62u8, 144u8, 64u8, 198u8, 98u8, 215u8, 242u8, 167u8, 136u8, 136u8, 131u8, 23u8, 8u8, 38u8, 180u8]
}

#[verifier::opaque]
spec fn acc_6_90() -> Seq<u8> {
    seq![193u8, 62u8, 144u8, 64u8, 198u8, 98u8, 215u8, 242u8, 167u8, 136u8, 136u8, 131u8, 23u8, 8u8, 38u8, 180u8]
}

#[verifier::opaque]
spec fn acc_6_91() -> Seq<u8> {
    seq![175u8, 17u8, 113u8, 95u8, 230u8, 205u8, 139u8, 0u8, 102u8, 64u8, 157u8, 189u8, 47u8, 139u8, 115u8, 5u8]
}

#[verifier::opaque]
spec fn acc_6_92() -> Seq<u8> {
    seq![244u8, 79u8, 179u8, 96u8, 166u8, 147u8, 50u8, 228u8, 229u8, 209u8, 182u8, 193u8, 95u8, 141u8, 216u8, 103u8]
}

#[verifier::opaque]
spec fn acc_6_93() -> Seq<u8> {
    seq![244u8, 79u8, 179u8, 96u8, 166u8, 147u8, 50u8, 228u8, 229u8, 209u8, 182u8, 193u8, 95u8, 141u8, 216u8, 103u8]
}

#[verifier::opaque]
spec fn acc_6_94() -> Seq<u8> {
    seq![31u8, 54u8, 186u8, 159u8, 166u8, 234u8, 215u8, 118u8, 234u8, 151u8, 24u8, 49u8, 158u8, 148u8, 116u8, 237u8]
}

#[verifier::opaque]
spec fn acc_6_95() -> Seq<u8> {
    seq![78u8, 197u8, 168u8, 97u8, 167u8, 24u8, 29u8, 83u8, 245u8, 27u8, 68u8, 208u8, 29u8, 167u8, 44u8, 248u8]
}

#[verifier::opaque]
spec fn acc_6_96() -> Seq<u8> {
    seq![78u8, 197u8, 168u8, 97u8, 167u8, 24u8, 29u8, 83u8, 245u8, 27u8, 68u8, 208u8, 29u8, 167u8, 44u8, 248u8]
}

#[verifier::opaque]
spec fn acc_6_97() -> Seq<u8> {
    seq![78u8, 197u8, 168u8, 97u8, 167u8, 24u8, 29u8, 83u8, 245u8, 27u8, 68u8, 208u8, 29u8, 167u8, 44u8, 248u8]
}

#[verifier::opaque]
spec fn acc_6_98() -> Seq<u8> {
    seq![78u8, 197u8, 168u8, 97u8, 167u8, 24u8, 29u8, 83u8, 245u8, 27u8, 68u8, 208u8, 29u8, 167u8, 44u8, 248u8]
}

#[verifier::opaque]
spec fn acc_6_99() -> Seq<u8> {
    seq![78u8, 197u8, 168u8, 97u8, 167u8, 24u8, 29u8, 83u8, 245u8, 27u8, 68u8, 208u8, 29u8, 167u8, 44u8, 248u8]
}

#[verifier::opaque]
spec fn acc_6_100() -> Seq<u8> {
    seq![96u8, 174u8, 246u8, 163u8, 152u8, 88u8, 67u8, 234u8, 17u8, 152u8, 213u8, 251u8, 97u8, 215u8, 42u8, 83u8]
}

#[verifier::opaque]
spec fn acc_6_101() -> Seq<u8> {
    seq![96u8, 174u8, 246u8, 163u8, 152u8, 88u8, 67u8, 234u8, 17u8, 152u8, 213u8, 251u8, 97u8, 215u8, 42u8, 83u8]
}

#[verifier::opaque]
spec fn acc_6_102() -> Seq<u8> {
    seq![214u8, 3u8, 143u8, 170u8, 103u8, 88u8, 58u8, 15u8, 131u8, 151u8, 147u8, 85u8, 145u8, 22u8, 51u8, 255u8]
}

#[verifier::opaque]
spec fn acc_6_103() -> Seq<u8> {
    seq![61u8, 88u8, 124u8, 184u8, 153u8, 89u8, 200u8, 197u8, 166u8, 136u8, 31u8, 9u8, 112u8, 149u8, 0u8, 167u8]
}

#[verifier::opaque]
spec fn acc_6_104() -> Seq<u8> {
    seq![61u8, 88u8, 124u8, 184u8, 153u8, 89u8, 200u8, 197u8, 166u8, 136u8, 31u8, 9u8, 112u8, 149u8, 0u8, 167u8]
}

#[verifier::opaque]
spec fn acc_6_105() -> Seq<u8> {
    seq![22u8, 55u8, 177u8, 243u8, 97u8, 94u8, 0u8, 238u8, 49u8, 244u8, 47u8, 123u8, 245u8, 154u8, 206u8, 199u8]
}

#[verifier::opaque]
spec fn acc_6_106() -> Seq<u8> {
    seq![22u8, 55u8, 177u8, 243u8, 97u8, 94u8, 0u8, 238u8, 49u8, 244u8, 47u8, 123u8, 245u8, 154u8, 206u8, 199u8]
}

#[verifier::opaque]
spec fn acc_6_107() -> Seq<u8> {
    seq![61u8, 139u8, 132u8, 220u8, 128u8, 65u8, 32u8, 65u8, 109u8, 6u8, 238u8, 179u8, 224u8, 164u8, 246u8, 68u8]
}

#[verifier::opaque]
spec fn acc_6_108() -> Seq<u8> {
    seq![61u8, 139u8, 132u8, 220u8, 128u8, 65u8, 32u8, 65u8, 109u8, 6u8, 238u8, 179u8, 224u8, 164u8, 246u8, 68u8]
}

#[verifier::opaque]
spec fn acc_6_109() -> Seq<u8> {
    seq![61u8, 139u8, 132u8, 220u8, 128u8, 65u8, 32u8, 65u8, 109u8, 6u8, 238u8, 179u8, 224u8, 164u8, 246u8, 68u8]
}

#[verifier::opaque]
spec fn acc_6_110() -> Seq<u8> {
    seq![121u8, 104u8, 41u8, 165u8, 137u8, 190u8, 32u8, 56u8, 136u8, 148u8, 225u8, 245u8, 78u8, 84u8, 55u8, 93u8]
}

#[verifier::opaque]
spec fn acc_6_111() -> Seq<u8> {
    seq![121u8, 104u8, 41u8, 165u8, 137u8, 190u8, 32u8, 56u8, 136u8, 148u8, 225u8, 245u8, 78u8, 84u8, 55u8, 93u8]
}

#[verifier::opaque]
spec fn acc_6_112() -> Seq<u8> {
    seq![105u8, 229u8, 158u8, 67u8, 172u8, 66u8, 35u8, 220u8, 29u8, 223u8, 223u8, 237u8, 247u8, 150u8, 48u8, 58u8]
}

#[verifier::opaque]
spec fn acc_6_113() -> Seq<u8> {
    seq![73u8, 255u8, 241u8, 142u8, 231u8, 186u8, 36u8, 20u8, 54u8, 72u8, 163u8, 221u8, 133u8, 19u8, 63u8, 244u8]
}

#[verifier::opaque]
spec fn acc_6_114() -> Seq<u8> {
    seq![73u8, 255u8, 241u8, 142u8, 231u8, 186u8, 36u8, 20u8, 54u8, 72u8, 163u8, 221u8, 133u8, 19u8, 63u8, 244u8]
}

#[verifier::opaque]
spec fn acc_6_115() -> Seq<u8> {
    seq![73u8, 255u8, 241u8, 142u8, 231u8, 186u8, 36u8, 20u8, 54u8, 72u8, 163u8, 221u8, 133u8, 19u8, 63u8, 244u8]
}

#[verifier::opaque]
spec fn acc_6_116() -> Seq<u8> {
    seq![73u8, 255u8, 241u8, 142u8, 231u8, 186u8, 36u8, 20u8, 54u8, 72u8, 163u8, 221u8, 133u8, 19u8, 63u8, 244u8]
}

#[verifier::opaque]
spec fn acc_6_117() -> Seq<u8> {
    seq![73u8, 255u8, 241u8, 142u8, 231u8, 186u8, 36u8, 20u8, 54u8, 72u8, 163u8, 221u8, 133u8, 19u8, 63u8, 244u8]
}

#[verifier::opaque]
spec fn acc_6_118() -> Seq<u8> {
    seq![73u8, 255u8, 241u8, 142u8, 231u8, 186u8, 36u8, 20u8, 54u8, 72u8, 163u8, 221u8, 133u8, 19u8, 63u8, 244u8]
}

#[verifier::opaque]
spec fn acc_6_119() -> Seq<u8> {
    seq![73u8, 255u8, 241u8, 142u8, 231u8, 186u8, 36u8, 20u8, 54u8, 72u8, 163u8, 221u8, 133u8, 19u8, 63u8, 244u8]
}

#[verifier::opaque]
spec fn acc_6_120() -> Seq<u8> {
    seq![252u8, 221u8, 124u8, 57u8, 1u8, 159u8, 216u8, 23u8, 210u8, 221u8, 232u8, 227u8, 157u8, 170u8, 253u8, 243u8]
}

#[verifier::opaque]
spec fn acc_6_121() -> Seq<u8> {
    seq![252u8, 221u8, 124u8, 57u8, 1u8, 159u8, 216u8, 23u8, 210u8, 221u8, 232u8, 227u8, 157u8, 170u8, 253u8, 243u8]
}

#[verifier::opaque]
spec fn acc_6_122() -> Seq<u8> {
    seq![40u8, 87u8, 72u8, 231u8, 155u8, 8u8, 40u8, 24u8, 66u8, 138u8, 198u8, 26u8, 253u8, 78u8, 247u8, 236u8]
}

#[verifier::opaque]
spec fn acc_6_123() -> Seq<u8> {
    seq![128u8, 66u8, 33u8, 91u8, 174u8, 39u8, 201u8, 7u8, 98u8, 37u8, 154u8, 232u8, 60u8, 134u8, 226u8, 210u8]
}

#[verifier::opaque]
spec fn acc_6_124() -> Seq<u8> {
    seq![128u8, 66u8, 33u8, 91u8, 174u8, 39u8, 201u8, 7u8, 98u8, 37u8, 154u8, 232u8, 60u8, 134u8, 226u8, 210u8]
}

#[verifier::opaque]
spec fn acc_6_125() -> Seq<u8> {
    seq![32u8, 20u8, 133u8, 170u8, 120u8, 155u8, 77u8, 120u8, 226u8, 153u8, 232u8, 33u8, 59u8, 165u8, 181u8, 42u8]
}

#[verifier::opaque]
spec fn acc_6_126() -> Seq<u8> {
    seq![32u8, 20u8, 133u8, 170u8, 120u8, 155u8, 77u8, 120u8, 226u8, 153u8, 232u8, 33u8, 59u8, 165u8, 181u8, 42u8]
}

#[verifier::opaque]
spec fn acc_6_127() -> Seq<u8> {
    seq![41u8, 79u8, 20u8, 108u8, 35u8, 104u8, 95u8, 134u8, 227u8, 107u8, 34u8, 4u8, 36u8, 41u8, 233u8, 203u8]
}

#[verifier::opaque]
spec fn acc_6_128() -> Seq<u8> {
    seq![188u8, 249u8, 54u8, 225u8, 148u8, 142u8, 122u8, 122u8, 224u8, 143u8, 183u8, 79u8, 26u8, 49u8, 80u8, 9u8]
}

proof fn lemma_acc_6_0()
    ensures
        shift_add_mul(alpha_spec(), alpha_pow_6(), 0) == acc_6_0(),
{
    reveal(acc_6_0);
    assert(shift_add_mul(alpha_spec(), alpha_pow_6(), 0) =~= acc_6_0());
}

proof fn lemma_acc_6_1()
    ensures
        shift_add_mul(alpha_spec(), alpha_pow_6(), 1) == acc_6_1(),
{
    lemma_acc_6_0();
    lemma_alpha_x_0();
    lemma_alpha_byte_facts();
    reveal(bytes_p_6_1);
    reveal(alpha_pow_6);
    reveal(acc_6_0);
    reveal(acc_6_1);
    reveal(alpha_x_0);
    assert(bits_of_bytes(alpha_pow_6())[0] == bit_of(34u8, 0));
    assert(shift_add_mul(alpha_spec(), alpha_pow_6(), 1) =~= acc_6_1());
}

proof fn lemma_acc_6_2()
    ensures
        shift_add_mul(alpha_spec(), alpha_pow_6(), 2) == acc_6_2(),
{
    lemma_acc_6_1();
    lemma_alpha_x_1();
    lemma_alpha_byte_facts();
    reveal(bytes_p_6_2);
    reveal(alpha_pow_6);
    reveal(acc_6_1);
    reveal(acc_6_2);
    reveal(alpha_x_1);
    assert(bits_of_bytes(alpha_pow_6())[1] == bit_of(34u8, 1));
    assert(shift_add_mul(alpha_spec(), alpha_pow_6(), 2) =~= acc_6_2());
}

proof fn lemma_acc_6_3()
    ensures
        shift_add_mul(alpha_spec(), alpha_pow_6(), 3) == acc_6_3(),
{
    lemma_acc_6_2();
    lemma_alpha_x_2();
    lemma_alpha_byte_facts();
    reveal(bytes_p_6_3);
    reveal(alpha_pow_6);
    reveal(acc_6_2);
    reveal(acc_6_3);
    reveal(alpha_x_2);
    assert(bits_of_bytes(alpha_pow_6())[2] == bit_of(34u8, 2));
    assert(shift_add_mul(alpha_spec(), alpha_pow_6(), 3) =~= acc_6_3());
}

proof fn lemma_acc_6_4()
    ensures
        shift_add_mul(alpha_spec(), alpha_pow_6(), 4) == acc_6_4(),
{
    lemma_acc_6_3();
    lemma_alpha_x_3();
    lemma_alpha_byte_facts();
    reveal(bytes_p_6_4);
    reveal(alpha_pow_6);
    reveal(acc_6_3);
    reveal(acc_6_4);
    reveal(alpha_x_3);
    assert(bits_of_bytes(alpha_pow_6())[3] == bit_of(34u8, 3));
    assert(shift_add_mul(alpha_spec(), alpha_pow_6(), 4) =~= acc_6_4());
}

proof fn lemma_acc_6_5()
    ensures
        shift_add_mul(alpha_spec(), alpha_pow_6(), 5) == acc_6_5(),
{
    lemma_acc_6_4();
    lemma_alpha_x_4();
    lemma_alpha_byte_facts();
    reveal(bytes_p_6_5);
    reveal(alpha_pow_6);
    reveal(acc_6_4);
    reveal(acc_6_5);
    reveal(alpha_x_4);
    assert(bits_of_bytes(alpha_pow_6())[4] == bit_of(34u8, 4));
    assert(shift_add_mul(alpha_spec(), alpha_pow_6(), 5) =~= acc_6_5());
}

proof fn lemma_acc_6_6()
    ensures
        shift_add_mul(alpha_spec(), alpha_pow_6(), 6) == acc_6_6(),
{
    lemma_acc_6_5();
    lemma_alpha_x_5();
    lemma_alpha_byte_facts();
    reveal(bytes_p_6_6);
    reveal(alpha_pow_6);
    reveal(acc_6_5);
    reveal(acc_6_6);
    reveal(alpha_x_5);
    assert(bits_of_bytes(alpha_pow_6())[5] == bit_of(34u8, 5));
    assert(shift_add_mul(alpha_spec(), alpha_pow_6(), 6) =~= acc_6_6());
}

proof fn lemma_acc_6_7()
    ensures
        shift_add_mul(alpha_spec(), alpha_pow_6(), 7) == acc_6_7(),
{
    lemma_acc_6_6();
    lemma_alpha_x_6();
    lemma_alpha_byte_facts();
    reveal(bytes_p_6_7);
    reveal(alpha_pow_6);
    reveal(acc_6_6);
    reveal(acc_6_7);
    reveal(alpha_x_6);
    assert(bits_of_bytes(alpha_pow_6())[6] == bit_of(34u8, 6));
    assert(shift_add_mul(alpha_spec(), alpha_pow_6(), 7) =~= acc_6_7());
}

proof fn lemma_acc_6_8()
    ensures
        shift_add_mul(alpha_spec(), alpha_pow_6(), 8) == acc_6_8(),
{
    lemma_acc_6_7();
    lemma_alpha_x_7();
    lemma_alpha_byte_facts();
    reveal(bytes_p_6_8);
    reveal(alpha_pow_6);
    reveal(acc_6_7);
    reveal(acc_6_8);
    reveal(alpha_x_7);
    assert(bits_of_bytes(alpha_pow_6())[7] == bit_of(34u8, 7));
    assert(shift_add_mul(alpha_spec(), alpha_pow_6(), 8) =~= acc_6_8());
}

proof fn lemma_acc_6_9()
    ensures
        shift_add_mul(alpha_spec(), alpha_pow_6(), 9) == acc_6_9(),
{
    lemma_acc_6_8();
    lemma_alpha_x_8();
    lemma_alpha_byte_facts();
    reveal(bytes_p_6_9);
    reveal(alpha_pow_6);
    reveal(acc_6_8);
    reveal(acc_6_9);
    reveal(alpha_x_8);
    assert(bits_of_bytes(alpha_pow_6())[8] == bit_of(255u8, 0));
    assert(shift_add_mul(alpha_spec(), alpha_pow_6(), 9) =~= acc_6_9());
}

proof fn lemma_acc_6_10()
    ensures
        shift_add_mul(alpha_spec(), alpha_pow_6(), 10) == acc_6_10(),
{
    lemma_acc_6_9();
    lemma_alpha_x_9();
    lemma_alpha_byte_facts();
    reveal(bytes_p_6_10);
    reveal(alpha_pow_6);
    reveal(acc_6_9);
    reveal(acc_6_10);
    reveal(alpha_x_9);
    assert(bits_of_bytes(alpha_pow_6())[9] == bit_of(255u8, 1));
    assert(shift_add_mul(alpha_spec(), alpha_pow_6(), 10) =~= acc_6_10());
}

proof fn lemma_acc_6_11()
    ensures
        shift_add_mul(alpha_spec(), alpha_pow_6(), 11) == acc_6_11(),
{
    lemma_acc_6_10();
    lemma_alpha_x_10();
    lemma_alpha_byte_facts();
    reveal(bytes_p_6_11);
    reveal(alpha_pow_6);
    reveal(acc_6_10);
    reveal(acc_6_11);
    reveal(alpha_x_10);
    assert(bits_of_bytes(alpha_pow_6())[10] == bit_of(255u8, 2));
    assert(shift_add_mul(alpha_spec(), alpha_pow_6(), 11) =~= acc_6_11());
}

proof fn lemma_acc_6_12()
    ensures
        shift_add_mul(alpha_spec(), alpha_pow_6(), 12) == acc_6_12(),
{
    lemma_acc_6_11();
    lemma_alpha_x_11();
    lemma_alpha_byte_facts();
    reveal(bytes_p_6_12);
    reveal(alpha_pow_6);
    reveal(acc_6_11);
    reveal(acc_6_12);
    reveal(alpha_x_11);
    assert(bits_of_bytes(alpha_pow_6())[11] == bit_of(255u8, 3));
    assert(shift_add_mul(alpha_spec(), alpha_pow_6(), 12) =~= acc_6_12());
}

proof fn lemma_acc_6_13()
    ensures
        shift_add_mul(alpha_spec(), alpha_pow_6(), 13) == acc_6_13(),
{
    lemma_acc_6_12();
    lemma_alpha_x_12();
    lemma_alpha_byte_facts();
    reveal(bytes_p_6_13);
    reveal(alpha_pow_6);
    reveal(acc_6_12);
    reveal(acc_6_13);
    reveal(alpha_x_12);
    assert(bits_of_bytes(alpha_pow_6())[12] == bit_of(255u8, 4));
    assert(shift_add_mul(alpha_spec(), alpha_pow_6(), 13) =~= acc_6_13());
}

proof fn lemma_acc_6_14()
    ensures
        shift_add_mul(alpha_spec(), alpha_pow_6(), 14) == acc_6_14(),
{
    lemma_acc_6_13();
    lemma_alpha_x_13();
    lemma_alpha_byte_facts();
    reveal(bytes_p_6_14);
    reveal(alpha_pow_6);
    reveal(acc_6_13);
    reveal(acc_6_14);
    reveal(alpha_x_13);
    assert(bits_of_bytes(alpha_pow_6())[13] == bit_of(255u8, 5));
    assert(shift_add_mul(alpha_spec(), alpha_pow_6(), 14) =~= acc_6_14());
}

proof fn lemma_acc_6_15()
    ensures
        shift_add_mul(alpha_spec(), alpha_pow_6(), 15) == acc_6_15(),
{
    lemma_acc_6_14();
    lemma_alpha_x_14();
    lemma_alpha_byte_facts();
    reveal(bytes_p_6_15);
    reveal(alpha_pow_6);
    reveal(acc_6_14);
    reveal(acc_6_15);
    reveal(alpha_x_14);
    assert(bits_of_bytes(alpha_pow_6())[14] == bit_of(255u8, 6));
    assert(shift_add_mul(alpha_spec(), alpha_pow_6(), 15) =~= acc_6_15());
}

proof fn lemma_acc_6_16()
    ensures
        shift_add_mul(alpha_spec(), alpha_pow_6(), 16) == acc_6_16(),
{
    lemma_acc_6_15();
    lemma_alpha_x_15();
    lemma_alpha_byte_facts();
    reveal(bytes_p_6_16);
    reveal(alpha_pow_6);
    reveal(acc_6_15);
    reveal(acc_6_16);
    reveal(alpha_x_15);
    assert(bits_of_bytes(alpha_pow_6())[15] == bit_of(255u8, 7));
    assert(shift_add_mul(alpha_spec(), alpha_pow_6(), 16) =~= acc_6_16());
}

proof fn lemma_acc_6_17()
    ensures
        shift_add_mul(alpha_spec(), alpha_pow_6(), 17) == acc_6_17(),
{
    lemma_acc_6_16();
    lemma_alpha_x_16();
    lemma_alpha_byte_facts();
    reveal(bytes_p_6_17);
    reveal(alpha_pow_6);
    reveal(acc_6_16);
    reveal(acc_6_17);
    reveal(alpha_x_16);
    assert(bits_of_bytes(alpha_pow_6())[16] == bit_of(33u8, 0));
    assert(shift_add_mul(alpha_spec(), alpha_pow_6(), 17) =~= acc_6_17());
}

proof fn lemma_acc_6_18()
    ensures
        shift_add_mul(alpha_spec(), alpha_pow_6(), 18) == acc_6_18(),
{
    lemma_acc_6_17();
    lemma_alpha_x_17();
    lemma_alpha_byte_facts();
    reveal(bytes_p_6_18);
    reveal(alpha_pow_6);
    reveal(acc_6_17);
    reveal(acc_6_18);
    reveal(alpha_x_17);
    assert(bits_of_bytes(alpha_pow_6())[17] == bit_of(33u8, 1));
    assert(shift_add_mul(alpha_spec(), alpha_pow_6(), 18) =~= acc_6_18());
}

proof fn lemma_acc_6_19()
    ensures
        shift_add_mul(alpha_spec(), alpha_pow_6(), 19) == acc_6_19(),
{
    lemma_acc_6_18();
    lemma_alpha_x_18();
    lemma_alpha_byte_facts();
    reveal(bytes_p_6_19);
    reveal(alpha_pow_6);
    reveal(acc_6_18);
    reveal(acc_6_19);
    reveal(alpha_x_18);
    assert(bits_of_bytes(alpha_pow_6())[18] == bit_of(33u8, 2));
    assert(shift_add_mul(alpha_spec(), alpha_pow_6(), 19) =~= acc_6_19());
}

proof fn lemma_acc_6_20()
    ensures
        shift_add_mul(alpha_spec(), alpha_pow_6(), 20) == acc_6_20(),
{
    lemma_acc_6_19();
    lemma_alpha_x_19();
    lemma_alpha_byte_facts();
    reveal(bytes_p_6_20);
    reveal(alpha_pow_6);
    reveal(acc_6_19);
    reveal(acc_6_20);
    reveal(alpha_x_19);
    assert(bits_of_bytes(alpha_pow_6())[19] == bit_of(33u8, 3));
    assert(shift_add_mul(alpha_spec(), alpha_pow_6(), 20) =~= acc_6_20());
}

proof fn lemma_acc_6_21()
    ensures
        shift_add_mul(alpha_spec(), alpha_pow_6(), 21) == acc_6_21(),
{
    lemma_acc_6_20();
    lemma_alpha_x_20();
    lemma_alpha_byte_facts();
    reveal(bytes_p_6_21);
    reveal(alpha_pow_6);
    reveal(acc_6_20);
    reveal(acc_6_21);
    reveal(alpha_x_20);
    assert(bits_of_bytes(alpha_pow_6())[20] == bit_of(33u8, 4));
    assert(shift_add_mul(alpha_spec(), alpha_pow_6(), 21) =~= acc_6_21());
}

proof fn lemma_acc_6_22()
    ensures
        shift_add_mul(alpha_spec(), alpha_pow_6(), 22) == acc_6_22(),
{
    lemma_acc_6_21();
    lemma_alpha_x_21();
    lemma_alpha_byte_facts();
    reveal(bytes_p_6_22);
    reveal(alpha_pow_6);
    reveal(acc_6_21);
    reveal(acc_6_22);
    reveal(alpha_x_21);
    assert(bits_of_bytes(alpha_pow_6())[21] == bit_of(33u8, 5));
    assert(shift_add_mul(alpha_spec(), alpha_pow_6(), 22) =~= acc_6_22());
}

proof fn lemma_acc_6_23()
    ensures
        shift_add_mul(alpha_spec(), alpha_pow_6(), 23) == acc_6_23(),
{
    lemma_acc_6_22();
    lemma_alpha_x_22();
    lemma_alpha_byte_facts();
    reveal(bytes_p_6_23);
    reveal(alpha_pow_6);
    reveal(acc_6_22);
    reveal(acc_6_23);
    reveal(alpha_x_22);
    assert(bits_of_bytes(alpha_pow_6())[22] == bit_of(33u8, 6));
    assert(shift_add_mul(alpha_spec(), alpha_pow_6(), 23) =~= acc_6_23());
}

proof fn lemma_acc_6_24()
    ensures
        shift_add_mul(alpha_spec(), alpha_pow_6(), 24) == acc_6_24(),
{
    lemma_acc_6_23();
    lemma_alpha_x_23();
    lemma_alpha_byte_facts();
    reveal(bytes_p_6_24);
    reveal(alpha_pow_6);
    reveal(acc_6_23);
    reveal(acc_6_24);
    reveal(alpha_x_23);
    assert(bits_of_bytes(alpha_pow_6())[23] == bit_of(33u8, 7));
    assert(shift_add_mul(alpha_spec(), alpha_pow_6(), 24) =~= acc_6_24());
}

proof fn lemma_acc_6_25()
    ensures
        shift_add_mul(alpha_spec(), alpha_pow_6(), 25) == acc_6_25(),
{
    lemma_acc_6_24();
    lemma_alpha_x_24();
    lemma_alpha_byte_facts();
    reveal(bytes_p_6_25);
    reveal(alpha_pow_6);
    reveal(acc_6_24);
    reveal(acc_6_25);
    reveal(alpha_x_24);
    assert(bits_of_bytes(alpha_pow_6())[24] == bit_of(37u8, 0));
    assert(shift_add_mul(alpha_spec(), alpha_pow_6(), 25) =~= acc_6_25());
}

proof fn lemma_acc_6_26()
    ensures
        shift_add_mul(alpha_spec(), alpha_pow_6(), 26) == acc_6_26(),
{
    lemma_acc_6_25();
    lemma_alpha_x_25();
    lemma_alpha_byte_facts();
    reveal(bytes_p_6_26);
    reveal(alpha_pow_6);
    reveal(acc_6_25);
    reveal(acc_6_26);
    reveal(alpha_x_25);
    assert(bits_of_bytes(alpha_pow_6())[25] == bit_of(37u8, 1));
    assert(shift_add_mul(alpha_spec(), alpha_pow_6(), 26) =~= acc_6_26());
}

proof fn lemma_acc_6_27()
    ensures
        shift_add_mul(alpha_spec(), alpha_pow_6(), 27) == acc_6_27(),
{
    lemma_acc_6_26();
    lemma_alpha_x_26();
    lemma_alpha_byte_facts();
    reveal(bytes_p_6_27);
    reveal(alpha_pow_6);
    reveal(acc_6_26);
    reveal(acc_6_27);
    reveal(alpha_x_26);
    assert(bits_of_bytes(alpha_pow_6())[26] == bit_of(37u8, 2));
    assert(shift_add_mul(alpha_spec(), alpha_pow_6(), 27) =~= acc_6_27());
}

proof fn lemma_acc_6_28()
    ensures
        shift_add_mul(alpha_spec(), alpha_pow_6(), 28) == acc_6_28(),
{
    lemma_acc_6_27();
    lemma_alpha_x_27();
    lemma_alpha_byte_facts();
    reveal(bytes_p_6_28);
    reveal(alpha_pow_6);
    reveal(acc_6_27);
    reveal(acc_6_28);
    reveal(alpha_x_27);
    assert(bits_of_bytes(alpha_pow_6())[27] == bit_of(37u8, 3));
    assert(shift_add_mul(alpha_spec(), alpha_pow_6(), 28) =~= acc_6_28());
}

proof fn lemma_acc_6_29()
    ensures
        shift_add_mul(alpha_spec(), alpha_pow_6(), 29) == acc_6_29(),
{
    lemma_acc_6_28();
    lemma_alpha_x_28();
    lemma_alpha_byte_facts();
    reveal(bytes_p_6_29);
    reveal(alpha_pow_6);
    reveal(acc_6_28);
    reveal(acc_6_29);
    reveal(alpha_x_28);
    assert(bits_of_bytes(alpha_pow_6())[28] == bit_of(37u8, 4));
    assert(shift_add_mul(alpha_spec(), alpha_pow_6(), 29) =~= acc_6_29());
}

proof fn lemma_acc_6_30()
    ensures
        shift_add_mul(alpha_spec(), alpha_pow_6(), 30) == acc_6_30(),
{
    lemma_acc_6_29();
    lemma_alpha_x_29();
    lemma_alpha_byte_facts();
    reveal(bytes_p_6_30);
    reveal(alpha_pow_6);
    reveal(acc_6_29);
    reveal(acc_6_30);
    reveal(alpha_x_29);
    assert(bits_of_bytes(alpha_pow_6())[29] == bit_of(37u8, 5));
    assert(shift_add_mul(alpha_spec(), alpha_pow_6(), 30) =~= acc_6_30());
}

proof fn lemma_acc_6_31()
    ensures
        shift_add_mul(alpha_spec(), alpha_pow_6(), 31) == acc_6_31(),
{
    lemma_acc_6_30();
    lemma_alpha_x_30();
    lemma_alpha_byte_facts();
    reveal(bytes_p_6_31);
    reveal(alpha_pow_6);
    reveal(acc_6_30);
    reveal(acc_6_31);
    reveal(alpha_x_30);
    assert(bits_of_bytes(alpha_pow_6())[30] == bit_of(37u8, 6));
    assert(shift_add_mul(alpha_spec(), alpha_pow_6(), 31) =~= acc_6_31());
}

proof fn lemma_acc_6_32()
    ensures
        shift_add_mul(alpha_spec(), alpha_pow_6(), 32) == acc_6_32(),
{
    lemma_acc_6_31();
    lemma_alpha_x_31();
    lemma_alpha_byte_facts();
    reveal(bytes_p_6_32);
    reveal(alpha_pow_6);
    reveal(acc_6_31);
    reveal(acc_6_32);
    reveal(alpha_x_31);
    assert(bits_of_bytes(alpha_pow_6())[31] == bit_of(37u8, 7));
    assert(shift_add_mul(alpha_spec(), alpha_pow_6(), 32) =~= acc_6_32());
}

proof fn lemma_acc_6_33()
    ensures
        shift_add_mul(alpha_spec(), alpha_pow_6(), 33) == acc_6_33(),
{
    lemma_acc_6_32();
    lemma_alpha_x_32();
    lemma_alpha_byte_facts();
    reveal(bytes_p_6_33);
    reveal(alpha_pow_6);
    reveal(acc_6_32);
    reveal(acc_6_33);
    reveal(alpha_x_32);
    assert(bits_of_bytes(alpha_pow_6())[32] == bit_of(239u8, 0));
    assert(shift_add_mul(alpha_spec(), alpha_pow_6(), 33) =~= acc_6_33());
}

proof fn lemma_acc_6_34()
    ensures
        shift_add_mul(alpha_spec(), alpha_pow_6(), 34) == acc_6_34(),
{
    lemma_acc_6_33();
    lemma_alpha_x_33();
    lemma_alpha_byte_facts();
    reveal(bytes_p_6_34);
    reveal(alpha_pow_6);
    reveal(acc_6_33);
    reveal(acc_6_34);
    reveal(alpha_x_33);
    assert(bits_of_bytes(alpha_pow_6())[33] == bit_of(239u8, 1));
    assert(shift_add_mul(alpha_spec(), alpha_pow_6(), 34) =~= acc_6_34());
}

proof fn lemma_acc_6_35()
    ensures
        shift_add_mul(alpha_spec(), alpha_pow_6(), 35) == acc_6_35(),
{
    lemma_acc_6_34();
    lemma_alpha_x_34();
    lemma_alpha_byte_facts();
    reveal(bytes_p_6_35);
    reveal(alpha_pow_6);
    reveal(acc_6_34);
    reveal(acc_6_35);
    reveal(alpha_x_34);
    assert(bits_of_bytes(alpha_pow_6())[34] == bit_of(239u8, 2));
    assert(shift_add_mul(alpha_spec(), alpha_pow_6(), 35) =~= acc_6_35());
}

proof fn lemma_acc_6_36()
    ensures
        shift_add_mul(alpha_spec(), alpha_pow_6(), 36) == acc_6_36(),
{
    lemma_acc_6_35();
    lemma_alpha_x_35();
    lemma_alpha_byte_facts();
    reveal(bytes_p_6_36);
    reveal(alpha_pow_6);
    reveal(acc_6_35);
    reveal(acc_6_36);
    reveal(alpha_x_35);
    assert(bits_of_bytes(alpha_pow_6())[35] == bit_of(239u8, 3));
    assert(shift_add_mul(alpha_spec(), alpha_pow_6(), 36) =~= acc_6_36());
}

proof fn lemma_acc_6_37()
    ensures
        shift_add_mul(alpha_spec(), alpha_pow_6(), 37) == acc_6_37(),
{
    lemma_acc_6_36();
    lemma_alpha_x_36();
    lemma_alpha_byte_facts();
    reveal(bytes_p_6_37);
    reveal(alpha_pow_6);
    reveal(acc_6_36);
    reveal(acc_6_37);
    reveal(alpha_x_36);
    assert(bits_of_bytes(alpha_pow_6())[36] == bit_of(239u8, 4));
    assert(shift_add_mul(alpha_spec(), alpha_pow_6(), 37) =~= acc_6_37());
}

proof fn lemma_acc_6_38()
    ensures
        shift_add_mul(alpha_spec(), alpha_pow_6(), 38) == acc_6_38(),
{
    lemma_acc_6_37();
    lemma_alpha_x_37();
    lemma_alpha_byte_facts();
    reveal(bytes_p_6_38);
    reveal(alpha_pow_6);
    reveal(acc_6_37);
    reveal(acc_6_38);
    reveal(alpha_x_37);
    assert(bits_of_bytes(alpha_pow_6())[37] == bit_of(239u8, 5));
    assert(shift_add_mul(alpha_spec(), alpha_pow_6(), 38) =~= acc_6_38());
}

proof fn lemma_acc_6_39()
    ensures
        shift_add_mul(alpha_spec(), alpha_pow_6(), 39) == acc_6_39(),
{
    lemma_acc_6_38();
    lemma_alpha_x_38();
    lemma_alpha_byte_facts();
    reveal(bytes_p_6_39);
    reveal(alpha_pow_6);
    reveal(acc_6_38);
    reveal(acc_6_39);
    reveal(alpha_x_38);
    assert(bits_of_bytes(alpha_pow_6())[38] == bit_of(239u8, 6));
    assert(shift_add_mul(alpha_spec(), alpha_pow_6(), 39) =~= acc_6_39());
}

proof fn lemma_acc_6_40()
    ensures
        shift_add_mul(alpha_spec(), alpha_pow_6(), 40) == acc_6_40(),
{
    lemma_acc_6_39();
    lemma_alpha_x_39();
    lemma_alpha_byte_facts();
    reveal(bytes_p_6_40);
    reveal(alpha_pow_6);
    reveal(acc_6_39);
    reveal(acc_6_40);
    reveal(alpha_x_39);
    assert(bits_of_bytes(alpha_pow_6())[39] == bit_of(239u8, 7));
    assert(shift_add_mul(alpha_spec(), alpha_pow_6(), 40) =~= acc_6_40());
}

proof fn lemma_acc_6_41()
    ensures
        shift_add_mul(alpha_spec(), alpha_pow_6(), 41) == acc_6_41(),
{
    lemma_acc_6_40();
    lemma_alpha_x_40();
    lemma_alpha_byte_facts();
    reveal(bytes_p_6_41);
    reveal(alpha_pow_6);
    reveal(acc_6_40);
    reveal(acc_6_41);
    reveal(alpha_x_40);
    assert(bits_of_bytes(alpha_pow_6())[40] == bit_of(242u8, 0));
    assert(shift_add_mul(alpha_spec(), alpha_pow_6(), 41) =~= acc_6_41());
}

proof fn lemma_acc_6_42()
    ensures
        shift_add_mul(alpha_spec(), alpha_pow_6(), 42) == acc_6_42(),
{
    lemma_acc_6_41();
    lemma_alpha_x_41();
    lemma_alpha_byte_facts();
    reveal(bytes_p_6_42);
    reveal(alpha_pow_6);
    reveal(acc_6_41);
    reveal(acc_6_42);
    reveal(alpha_x_41);
    assert(bits_of_bytes(alpha_pow_6())[41] == bit_of(242u8, 1));
    assert(shift_add_mul(alpha_spec(), alpha_pow_6(), 42) =~= acc_6_42());
}

proof fn lemma_acc_6_43()
    ensures
        shift_add_mul(alpha_spec(), alpha_pow_6(), 43) == acc_6_43(),
{
    lemma_acc_6_42();
    lemma_alpha_x_42();
    lemma_alpha_byte_facts();
    reveal(bytes_p_6_43);
    reveal(alpha_pow_6);
    reveal(acc_6_42);
    reveal(acc_6_43);
    reveal(alpha_x_42);
    assert(bits_of_bytes(alpha_pow_6())[42] == bit_of(242u8, 2));
    assert(shift_add_mul(alpha_spec(), alpha_pow_6(), 43) =~= acc_6_43());
}

proof fn lemma_acc_6_44()
    ensures
        shift_add_mul(alpha_spec(), alpha_pow_6(), 44) == acc_6_44(),
{
    lemma_acc_6_43();
    lemma_alpha_x_43();
    lemma_alpha_byte_facts();
    reveal(bytes_p_6_44);
    reveal(alpha_pow_6);
    reveal(acc_6_43);
    reveal(acc_6_44);
    reveal(alpha_x_43);
    assert(bits_of_bytes(alpha_pow_6())[43] == bit_of(242u8, 3));
    assert(shift_add_mul(alpha_spec(), alpha_pow_6(), 44) =~= acc_6_44());
}

proof fn lemma_acc_6_45()
    ensures
        shift_add_mul(alpha_spec(), alpha_pow_6(), 45) == acc_6_45(),
{
    lemma_acc_6_44();
    lemma_alpha_x_44();
    lemma_alpha_byte_facts();
    reveal(bytes_p_6_45);
    reveal(alpha_pow_6);
    reveal(acc_6_44);
    reveal(acc_6_45);
    reveal(alpha_x_44);
    assert(bits_of_bytes(alpha_pow_6())[44] == bit_of(242u8, 4));
    assert(shift_add_mul(alpha_spec(), alpha_pow_6(), 45) =~= acc_6_45());
}

proof fn lemma_acc_6_46()
    ensures
        shift_add_mul(alpha_spec(), alpha_pow_6(), 46) == acc_6_46(),
{
    lemma_acc_6_45();
    lemma_alpha_x_45();
    lemma_alpha_byte_facts();
    reveal(bytes_p_6_46);
    reveal(alpha_pow_6);
    reveal(acc_6_45);
    reveal(acc_6_46);
    reveal(alpha_x_45);
    assert(bits_of_bytes(alpha_pow_6())[45] == bit_of(242u8, 5));
    assert(shift_add_mul(alpha_spec(), alpha_pow_6(), 46) =~= acc_6_46());
}

proof fn lemma_acc_6_47()
    ensures
        shift_add_mul(alpha_spec(), alpha_pow_6(), 47) == acc_6_47(),
{
    lemma_acc_6_46();
    lemma_alpha_x_46();
    lemma_alpha_byte_facts();
    reveal(bytes_p_6_47);
    reveal(alpha_pow_6);
    reveal(acc_6_46);
    reveal(acc_6_47);
    reveal(alpha_x_46);
    assert(bits_of_bytes(alpha_pow_6())[46] == bit_of(242u8, 6));
    assert(shift_add_mul(alpha_spec(), alpha_pow_6(), 47) =~= acc_6_47());
}

proof fn lemma_acc_6_48()
    ensures
        shift_add_mul(alpha_spec(), alpha_pow_6(), 48) == acc_6_48(),
{
    lemma_acc_6_47();
    lemma_alpha_x_47();
    lemma_alpha_byte_facts();
    reveal(bytes_p_6_48);
    reveal(alpha_pow_6);
    reveal(acc_6_47);
    reveal(acc_6_48);
    reveal(alpha_x_47);
    assert(bits_of_bytes(alpha_pow_6())[47] == bit_of(242u8, 7));
    assert(shift_add_mul(alpha_spec(), alpha_pow_6(), 48) =~= acc_6_48());
}

proof fn lemma_acc_6_49()
    ensures
        shift_add_mul(alpha_spec(), alpha_pow_6(), 49) == acc_6_49(),
{
    lemma_acc_6_48();
    lemma_alpha_x_48();
    lemma_alpha_byte_facts();
    reveal(bytes_p_6_49);
    reveal(alpha_pow_6);
    reveal(acc_6_48);
    reveal(acc_6_49);
    reveal(alpha_x_48);
    assert(bits_of_bytes(alpha_pow_6())[48] == bit_of(43u8, 0));
    assert(shift_add_mul(alpha_spec(), alpha_pow_6(), 49) =~= acc_6_49());
}

proof fn lemma_acc_6_50()
    ensures
        shift_add_mul(alpha_spec(), alpha_pow_6(), 50) == acc_6_50(),
{
    lemma_acc_6_49();
    lemma_alpha_x_49();
    lemma_alpha_byte_facts();
    reveal(bytes_p_6_50);
    reveal(alpha_pow_6);
    reveal(acc_6_49);
    reveal(acc_6_50);
    reveal(alpha_x_49);
    assert(bits_of_bytes(alpha_pow_6())[49] == bit_of(43u8, 1));
    assert(shift_add_mul(alpha_spec(), alpha_pow_6(), 50) =~= acc_6_50());
}

proof fn lemma_acc_6_51()
    ensures
        shift_add_mul(alpha_spec(), alpha_pow_6(), 51) == acc_6_51(),
{
    lemma_acc_6_50();
    lemma_alpha_x_50();
    lemma_alpha_byte_facts();
    reveal(bytes_p_6_51);
    reveal(alpha_pow_6);
    reveal(acc_6_50);
    reveal(acc_6_51);
    reveal(alpha_x_50);
    assert(bits_of_bytes(alpha_pow_6())[50] == bit_of(43u8, 2));
    assert(shift_add_mul(alpha_spec(), alpha_pow_6(), 51) =~= acc_6_51());
}

proof fn lemma_acc_6_52()
    ensures
        shift_add_mul(alpha_spec(), alpha_pow_6(), 52) == acc_6_52(),
{
    lemma_acc_6_51();
    lemma_alpha_x_51();
    lemma_alpha_byte_facts();
    reveal(bytes_p_6_52);
    reveal(alpha_pow_6);
    reveal(acc_6_51);
    reveal(acc_6_52);
    reveal(alpha_x_51);
    assert(bits_of_bytes(alpha_pow_6())[51] == bit_of(43u8, 3));
    assert(shift_add_mul(alpha_spec(), alpha_pow_6(), 52) =~= acc_6_52());
}

proof fn lemma_acc_6_53()
    ensures
        shift_add_mul(alpha_spec(), alpha_pow_6(), 53) == acc_6_53(),
{
    lemma_acc_6_52();
    lemma_alpha_x_52();
    lemma_alpha_byte_facts();
    reveal(bytes_p_6_53);
    reveal(alpha_pow_6);
    reveal(acc_6_52);
    reveal(acc_6_53);
    reveal(alpha_x_52);
    assert(bits_of_bytes(alpha_pow_6())[52] == bit_of(43u8, 4));
    assert(shift_add_mul(alpha_spec(), alpha_pow_6(), 53) =~= acc_6_53());
}

proof fn lemma_acc_6_54()
    ensures
        shift_add_mul(alpha_spec(), alpha_pow_6(), 54) == acc_6_54(),
{
    lemma_acc_6_53();
    lemma_alpha_x_53();
    lemma_alpha_byte_facts();
    reveal(bytes_p_6_54);
    reveal(alpha_pow_6);
    reveal(acc_6_53);
    reveal(acc_6_54);
    reveal(alpha_x_53);
    assert(bits_of_bytes(alpha_pow_6())[53] == bit_of(43u8, 5));
    assert(shift_add_mul(alpha_spec(), alpha_pow_6(), 54) =~= acc_6_54());
}

proof fn lemma_acc_6_55()
    ensures
        shift_add_mul(alpha_spec(), alpha_pow_6(), 55) == acc_6_55(),
{
    lemma_acc_6_54();
    lemma_alpha_x_54();
    lemma_alpha_byte_facts();
    reveal(bytes_p_6_55);
    reveal(alpha_pow_6);
    reveal(acc_6_54);
    reveal(acc_6_55);
    reveal(alpha_x_54);
    assert(bits_of_bytes(alpha_pow_6())[54] == bit_of(43u8, 6));
    assert(shift_add_mul(alpha_spec(), alpha_pow_6(), 55) =~= acc_6_55());
}

proof fn lemma_acc_6_56()
    ensures
        shift_add_mul(alpha_spec(), alpha_pow_6(), 56) == acc_6_56(),
{
    lemma_acc_6_55();
    lemma_alpha_x_55();
    lemma_alpha_byte_facts();
    reveal(bytes_p_6_56);
    reveal(alpha_pow_6);
    reveal(acc_6_55);
    reveal(acc_6_56);
    reveal(alpha_x_55);
    assert(bits_of_bytes(alpha_pow_6())[55] == bit_of(43u8, 7));
    assert(shift_add_mul(alpha_spec(), alpha_pow_6(), 56) =~= acc_6_56());
}

proof fn lemma_acc_6_57()
    ensures
        shift_add_mul(alpha_spec(), alpha_pow_6(), 57) == acc_6_57(),
{
    lemma_acc_6_56();
    lemma_alpha_x_56();
    lemma_alpha_byte_facts();
    reveal(bytes_p_6_57);
    reveal(alpha_pow_6);
    reveal(acc_6_56);
    reveal(acc_6_57);
    reveal(alpha_x_56);
    assert(bits_of_bytes(alpha_pow_6())[56] == bit_of(199u8, 0));
    assert(shift_add_mul(alpha_spec(), alpha_pow_6(), 57) =~= acc_6_57());
}

proof fn lemma_acc_6_58()
    ensures
        shift_add_mul(alpha_spec(), alpha_pow_6(), 58) == acc_6_58(),
{
    lemma_acc_6_57();
    lemma_alpha_x_57();
    lemma_alpha_byte_facts();
    reveal(bytes_p_6_58);
    reveal(alpha_pow_6);
    reveal(acc_6_57);
    reveal(acc_6_58);
    reveal(alpha_x_57);
    assert(bits_of_bytes(alpha_pow_6())[57] == bit_of(199u8, 1));
    assert(shift_add_mul(alpha_spec(), alpha_pow_6(), 58) =~= acc_6_58());
}

proof fn lemma_acc_6_59()
    ensures
        shift_add_mul(alpha_spec(), alpha_pow_6(), 59) == acc_6_59(),
{
    lemma_acc_6_58();
    lemma_alpha_x_58();
    lemma_alpha_byte_facts();
    reveal(bytes_p_6_59);
    reveal(alpha_pow_6);
    reveal(acc_6_58);
    reveal(acc_6_59);
    reveal(alpha_x_58);
    assert(bits_of_bytes(alpha_pow_6())[58] == bit_of(199u8, 2));
    assert(shift_add_mul(alpha_spec(), alpha_pow_6(), 59) =~= acc_6_59());
}

proof fn lemma_acc_6_60()
    ensures
        shift_add_mul(alpha_spec(), alpha_pow_6(), 60) == acc_6_60(),
{
    lemma_acc_6_59();
    lemma_alpha_x_59();
    lemma_alpha_byte_facts();
    reveal(bytes_p_6_60);
    reveal(alpha_pow_6);
    reveal(acc_6_59);
    reveal(acc_6_60);
    reveal(alpha_x_59);
    assert(bits_of_bytes(alpha_pow_6())[59] == bit_of(199u8, 3));
    assert(shift_add_mul(alpha_spec(), alpha_pow_6(), 60) =~= acc_6_60());
}

proof fn lemma_acc_6_61()
    ensures
        shift_add_mul(alpha_spec(), alpha_pow_6(), 61) == acc_6_61(),
{
    lemma_acc_6_60();
    lemma_alpha_x_60();
    lemma_alpha_byte_facts();
    reveal(bytes_p_6_61);
    reveal(alpha_pow_6);
    reveal(acc_6_60);
    reveal(acc_6_61);
    reveal(alpha_x_60);
    assert(bits_of_bytes(alpha_pow_6())[60] == bit_of(199u8, 4));
    assert(shift_add_mul(alpha_spec(), alpha_pow_6(), 61) =~= acc_6_61());
}

proof fn lemma_acc_6_62()
    ensures
        shift_add_mul(alpha_spec(), alpha_pow_6(), 62) == acc_6_62(),
{
    lemma_acc_6_61();
    lemma_alpha_x_61();
    lemma_alpha_byte_facts();
    reveal(bytes_p_6_62);
    reveal(alpha_pow_6);
    reveal(acc_6_61);
    reveal(acc_6_62);
    reveal(alpha_x_61);
    assert(bits_of_bytes(alpha_pow_6())[61] == bit_of(199u8, 5));
    assert(shift_add_mul(alpha_spec(), alpha_pow_6(), 62) =~= acc_6_62());
}

proof fn lemma_acc_6_63()
    ensures
        shift_add_mul(alpha_spec(), alpha_pow_6(), 63) == acc_6_63(),
{
    lemma_acc_6_62();
    lemma_alpha_x_62();
    lemma_alpha_byte_facts();
    reveal(bytes_p_6_63);
    reveal(alpha_pow_6);
    reveal(acc_6_62);
    reveal(acc_6_63);
    reveal(alpha_x_62);
    assert(bits_of_bytes(alpha_pow_6())[62] == bit_of(199u8, 6));
    assert(shift_add_mul(alpha_spec(), alpha_pow_6(), 63) =~= acc_6_63());
}

proof fn lemma_acc_6_64()
    ensures
        shift_add_mul(alpha_spec(), alpha_pow_6(), 64) == acc_6_64(),
{
    lemma_acc_6_63();
    lemma_alpha_x_63();
    lemma_alpha_byte_facts();
    reveal(bytes_p_6_64);
    reveal(alpha_pow_6);
    reveal(acc_6_63);
    reveal(acc_6_64);
    reveal(alpha_x_63);
    assert(bits_of_bytes(alpha_pow_6())[63] == bit_of(199u8, 7));
    assert(shift_add_mul(alpha_spec(), alpha_pow_6(), 64) =~= acc_6_64());
}

proof fn lemma_acc_6_65()
    ensures
        shift_add_mul(alpha_spec(), alpha_pow_6(), 65) == acc_6_65(),
{
    lemma_acc_6_64();
    lemma_alpha_x_64();
    lemma_alpha_byte_facts();
    reveal(bytes_p_6_65);
    reveal(alpha_pow_6);
    reveal(acc_6_64);
    reveal(acc_6_65);
    reveal(alpha_x_64);
    assert(bits_of_bytes(alpha_pow_6())[64] == bit_of(117u8, 0));
    assert(shift_add_mul(alpha_spec(), alpha_pow_6(), 65) =~= acc_6_65());
}

proof fn lemma_acc_6_66()
    ensures
        shift_add_mul(alpha_spec(), alpha_pow_6(), 66) == acc_6_66(),
{
    lemma_acc_6_65();
    lemma_alpha_x_65();
    lemma_alpha_byte_facts();
    reveal(bytes_p_6_66);
    reveal(alpha_pow_6);
    reveal(acc_6_65);
    reveal(acc_6_66);
    reveal(alpha_x_65);
    assert(bits_of_bytes(alpha_pow_6())[65] == bit_of(117u8, 1));
    assert(shift_add_mul(alpha_spec(), alpha_pow_6(), 66) =~= acc_6_66());
}

proof fn lemma_acc_6_67()
    ensures
        shift_add_mul(alpha_spec(), alpha_pow_6(), 67) == acc_6_67(),
{
    lemma_acc_6_66();
    lemma_alpha_x_66();
    lemma_alpha_byte_facts();
    reveal(bytes_p_6_67);
    reveal(alpha_pow_6);
    reveal(acc_6_66);
    reveal(acc_6_67);
    reveal(alpha_x_66);
    assert(bits_of_bytes(alpha_pow_6())[66] == bit_of(117u8, 2));
    assert(shift_add_mul(alpha_spec(), alpha_pow_6(), 67) =~= acc_6_67());
}

proof fn lemma_acc_6_68()
    ensures
        shift_add_mul(alpha_spec(), alpha_pow_6(), 68) == acc_6_68(),
{
    lemma_acc_6_67();
    lemma_alpha_x_67();
    lemma_alpha_byte_facts();
    reveal(bytes_p_6_68);
    reveal(alpha_pow_6);
    reveal(acc_6_67);
    reveal(acc_6_68);
    reveal(alpha_x_67);
    assert(bits_of_bytes(alpha_pow_6())[67] == bit_of(117u8, 3));
    assert(shift_add_mul(alpha_spec(), alpha_pow_6(), 68) =~= acc_6_68());
}

proof fn lemma_acc_6_69()
    ensures
        shift_add_mul(alpha_spec(), alpha_pow_6(), 69) == acc_6_69(),
{
    lemma_acc_6_68();
    lemma_alpha_x_68();
    lemma_alpha_byte_facts();
    reveal(bytes_p_6_69);
    reveal(alpha_pow_6);
    reveal(acc_6_68);
    reveal(acc_6_69);
    reveal(alpha_x_68);
    assert(bits_of_bytes(alpha_pow_6())[68] == bit_of(117u8, 4));
    assert(shift_add_mul(alpha_spec(), alpha_pow_6(), 69) =~= acc_6_69());
}

proof fn lemma_acc_6_70()
    ensures
        shift_add_mul(alpha_spec(), alpha_pow_6(), 70) == acc_6_70(),
{
    lemma_acc_6_69();
    lemma_alpha_x_69();
    lemma_alpha_byte_facts();
    reveal(bytes_p_6_70);
    reveal(alpha_pow_6);
    reveal(acc_6_69);
    reveal(acc_6_70);
    reveal(alpha_x_69);
    assert(bits_of_bytes(alpha_pow_6())[69] == bit_of(117u8, 5));
    assert(shift_add_mul(alpha_spec(), alpha_pow_6(), 70) =~= acc_6_70());
}

proof fn lemma_acc_6_71()
    ensures
        shift_add_mul(alpha_spec(), alpha_pow_6(), 71) == acc_6_71(),
{
    lemma_acc_6_70();
    lemma_alpha_x_70();
    lemma_alpha_byte_facts();
    reveal(bytes_p_6_71);
    reveal(alpha_pow_6);
    reveal(acc_6_70);
    reveal(acc_6_71);
    reveal(alpha_x_70);
    assert(bits_of_bytes(alpha_pow_6())[70] == bit_of(117u8, 6));
    assert(shift_add_mul(alpha_spec(), alpha_pow_6(), 71) =~= acc_6_71());
}

proof fn lemma_acc_6_72()
    ensures
        shift_add_mul(alpha_spec(), alpha_pow_6(), 72) == acc_6_72(),
{
    lemma_acc_6_71();
    lemma_alpha_x_71();
    lemma_alpha_byte_facts();
    reveal(bytes_p_6_72);
    reveal(alpha_pow_6);
    reveal(acc_6_71);
    reveal(acc_6_72);
    reveal(alpha_x_71);
    assert(bits_of_bytes(alpha_pow_6())[71] == bit_of(117u8, 7));
    assert(shift_add_mul(alpha_spec(), alpha_pow_6(), 72) =~= acc_6_72());
}

proof fn lemma_acc_6_73()
    ensures
        shift_add_mul(alpha_spec(), alpha_pow_6(), 73) == acc_6_73(),
{
    lemma_acc_6_72();
    lemma_alpha_x_72();
    lemma_alpha_byte_facts();
    reveal(bytes_p_6_73);
    reveal(alpha_pow_6);
    reveal(acc_6_72);
    reveal(acc_6_73);
    reveal(alpha_x_72);
    assert(bits_of_bytes(alpha_pow_6())[72] == bit_of(31u8, 0));
    assert(shift_add_mul(alpha_spec(), alpha_pow_6(), 73) =~= acc_6_73());
}

proof fn lemma_acc_6_74()
    ensures
        shift_add_mul(alpha_spec(), alpha_pow_6(), 74) == acc_6_74(),
{
    lemma_acc_6_73();
    lemma_alpha_x_73();
    lemma_alpha_byte_facts();
    reveal(bytes_p_6_74);
    reveal(alpha_pow_6);
    reveal(acc_6_73);
    reveal(acc_6_74);
    reveal(alpha_x_73);
    assert(bits_of_bytes(alpha_pow_6())[73] == bit_of(31u8, 1));
    assert(shift_add_mul(alpha_spec(), alpha_pow_6(), 74) =~= acc_6_74());
}

proof fn lemma_acc_6_75()
    ensures
        shift_add_mul(alpha_spec(), alpha_pow_6(), 75) == acc_6_75(),
{
    lemma_acc_6_74();
    lemma_alpha_x_74();
    lemma_alpha_byte_facts();
    reveal(bytes_p_6_75);
    reveal(alpha_pow_6);
    reveal(acc_6_74);
    reveal(acc_6_75);
    reveal(alpha_x_74);
    assert(bits_of_bytes(alpha_pow_6())[74] == bit_of(31u8, 2));
    assert(shift_add_mul(alpha_spec(), alpha_pow_6(), 75) =~= acc_6_75());
}

proof fn lemma_acc_6_76()
    ensures
        shift_add_mul(alpha_spec(), alpha_pow_6(), 76) == acc_6_76(),
{
    lemma_acc_6_75();
    lemma_alpha_x_75();
    lemma_alpha_byte_facts();
    reveal(bytes_p_6_76);
    reveal(alpha_pow_6);
    reveal(acc_6_75);
    reveal(acc_6_76);
    reveal(alpha_x_75);
    assert(bits_of_bytes(alpha_pow_6())[75] == bit_of(31u8, 3));
    assert(shift_add_mul(alpha_spec(), alpha_pow_6(), 76) =~= acc_6_76());
}

proof fn lemma_acc_6_77()
    ensures
        shift_add_mul(alpha_spec(), alpha_pow_6(), 77) == acc_6_77(),
{
    lemma_acc_6_76();
    lemma_alpha_x_76();
    lemma_alpha_byte_facts();
    reveal(bytes_p_6_77);
    reveal(alpha_pow_6);
    reveal(acc_6_76);
    reveal(acc_6_77);
    reveal(alpha_x_76);
    assert(bits_of_bytes(alpha_pow_6())[76] == bit_of(31u8, 4));
    assert(shift_add_mul(alpha_spec(), alpha_pow_6(), 77) =~= acc_6_77());
}

proof fn lemma_acc_6_78()
    ensures
        shift_add_mul(alpha_spec(), alpha_pow_6(), 78) == acc_6_78(),
{
    lemma_acc_6_77();
    lemma_alpha_x_77();
    lemma_alpha_byte_facts();
    reveal(bytes_p_6_78);
    reveal(alpha_pow_6);
    reveal(acc_6_77);
    reveal(acc_6_78);
    reveal(alpha_x_77);
    assert(bits_of_bytes(alpha_pow_6())[77] == bit_of(31u8, 5));
    assert(shift_add_mul(alpha_spec(), alpha_pow_6(), 78) =~= acc_6_78());
}

proof fn lemma_acc_6_79()
    ensures
        shift_add_mul(alpha_spec(), alpha_pow_6(), 79) == acc_6_79(),
{
    lemma_acc_6_78();
    lemma_alpha_x_78();
    lemma_alpha_byte_facts();
    reveal(bytes_p_6_79);
    reveal(alpha_pow_6);
    reveal(acc_6_78);
    reveal(acc_6_79);
    reveal(alpha_x_78);
    assert(bits_of_bytes(alpha_pow_6())[78] == bit_of(31u8, 6));
    assert(shift_add_mul(alpha_spec(), alpha_pow_6(), 79) =~= acc_6_79());
}

proof fn lemma_acc_6_80()
    ensures
        shift_add_mul(alpha_spec(), alpha_pow_6(), 80) == acc_6_80(),
{
    lemma_acc_6_79();
    lemma_alpha_x_79();
    lemma_alpha_byte_facts();
    reveal(bytes_p_6_80);
    reveal(alpha_pow_6);
    reveal(acc_6_79);
    reveal(acc_6_80);
    reveal(alpha_x_79);
    assert(bits_of_bytes(alpha_pow_6())[79] == bit_of(31u8, 7));
    assert(shift_add_mul(alpha_spec(), alpha_pow_6(), 80) =~= acc_6_80());
}

proof fn lemma_acc_6_81()
    ensures
        shift_add_mul(alpha_spec(), alpha_pow_6(), 81) == acc_6_81(),
{
    lemma_acc_6_80();
    lemma_alpha_x_80();
    lemma_alpha_byte_facts();
    reveal(bytes_p_6_81);
    reveal(alpha_pow_6);
    reveal(acc_6_80);
    reveal(acc_6_81);
    reveal(alpha_x_80);
    assert(bits_of_bytes(alpha_pow_6())[80] == bit_of(12u8, 0));
    assert(shift_add_mul(alpha_spec(), alpha_pow_6(), 81) =~= acc_6_81());
}

proof fn lemma_acc_6_82()
    ensures
        shift_add_mul(alpha_spec(), alpha_pow_6(), 82) == acc_6_82(),
{
    lemma_acc_6_81();
    lemma_alpha_x_81();
    lemma_alpha_byte_facts();
    reveal(bytes_p_6_82);
    reveal(alpha_pow_6);
    reveal(acc_6_81);
    reveal(acc_6_82);
    reveal(alpha_x_81);
    assert(bits_of_bytes(alpha_pow_6())[81] == bit_of(12u8, 1));
    assert(shift_add_mul(alpha_spec(), alpha_pow_6(), 82) =~= acc_6_82());
}

proof fn lemma_acc_6_83()
    ensures
        shift_add_mul(alpha_spec(), alpha_pow_6(), 83) == acc_6_83(),
{
    lemma_acc_6_82();
    lemma_alpha_x_82();
    lemma_alpha_byte_facts();
    reveal(bytes_p_6_83);
    reveal(alpha_pow_6);
    reveal(acc_6_82);
    reveal(acc_6_83);
    reveal(alpha_x_82);
    assert(bits_of_bytes(alpha_pow_6())[82] == bit_of(12u8, 2));
    assert(shift_add_mul(alpha_spec(), alpha_pow_6(), 83) =~= acc_6_83());
}

proof fn lemma_acc_6_84()
    ensures
        shift_add_mul(alpha_spec(), alpha_pow_6(), 84) == acc_6_84(),
{
    lemma_acc_6_83();
    lemma_alpha_x_83();
    lemma_alpha_byte_facts();
    reveal(bytes_p_6_84);
    reveal(alpha_pow_6);
    reveal(acc_6_83);
    reveal(acc_6_84);
    reveal(alpha_x_83);
    assert(bits_of_bytes(alpha_pow_6())[83] == bit_of(12u8, 3));
    assert(shift_add_mul(alpha_spec(), alpha_pow_6(), 84) =~= acc_6_84());
}

proof fn lemma_acc_6_85()
    ensures
        shift_add_mul(alpha_spec(), alpha_pow_6(), 85) == acc_6_85(),
{
    lemma_acc_6_84();
    lemma_alpha_x_84();
    lemma_alpha_byte_facts();
    reveal(bytes_p_6_85);
    reveal(alpha_pow_6);
    reveal(acc_6_84);
    reveal(acc_6_85);
    reveal(alpha_x_84);
    assert(bits_of_bytes(alpha_pow_6())[84] == bit_of(12u8, 4));
    assert(shift_add_mul(alpha_spec(), alpha_pow_6(), 85) =~= acc_6_85());
}

proof fn lemma_acc_6_86()
    ensures
        shift_add_mul(alpha_spec(), alpha_pow_6(), 86) == acc_6_86(),
{
    lemma_acc_6_85();
    lemma_alpha_x_85();
    lemma_alpha_byte_facts();
    reveal(bytes_p_6_86);
    reveal(alpha_pow_6);
    reveal(acc_6_85);
    reveal(acc_6_86);
    reveal(alpha_x_85);
    assert(bits_of_bytes(alpha_pow_6())[85] == bit_of(12u8, 5));
    assert(shift_add_mul(alpha_spec(), alpha_pow_6(), 86) =~= acc_6_86());
}

proof fn lemma_acc_6_87()
    ensures
        shift_add_mul(alpha_spec(), alpha_pow_6(), 87) == acc_6_87(),
{
    lemma_acc_6_86();
    lemma_alpha_x_86();
    lemma_alpha_byte_facts();
    reveal(bytes_p_6_87);
    reveal(alpha_pow_6);
    reveal(acc_6_86);
    reveal(acc_6_87);
    reveal(alpha_x_86);
    assert(bits_of_bytes(alpha_pow_6())[86] == bit_of(12u8, 6));
    assert(shift_add_mul(alpha_spec(), alpha_pow_6(), 87) =~= acc_6_87());
}

proof fn lemma_acc_6_88()
    ensures
        shift_add_mul(alpha_spec(), alpha_pow_6(), 88) == acc_6_88(),
{
    lemma_acc_6_87();
    lemma_alpha_x_87();
    lemma_alpha_byte_facts();
    reveal(bytes_p_6_88);
    reveal(alpha_pow_6);
    reveal(acc_6_87);
    reveal(acc_6_88);
    reveal(alpha_x_87);
    assert(bits_of_bytes(alpha_pow_6())[87] == bit_of(12u8, 7));
    assert(shift_add_mul(alpha_spec(), alpha_pow_6(), 88) =~= acc_6_88());
}

proof fn lemma_acc_6_89()
    ensures
        shift_add_mul(alpha_spec(), alpha_pow_6(), 89) == acc_6_89(),
{
    lemma_acc_6_88();
    lemma_alpha_x_88();
    lemma_alpha_byte_facts();
    reveal(bytes_p_6_89);
    reveal(alpha_pow_6);
    reveal(acc_6_88);
    reveal(acc_6_89);
    reveal(alpha_x_88);
    assert(bits_of_bytes(alpha_pow_6())[88] == bit_of(108u8, 0));
    assert(shift_add_mul(alpha_spec(), alpha_pow_6(), 89) =~= acc_6_89());
}

proof fn lemma_acc_6_90()
    ensures
        shift_add_mul(alpha_spec(), alpha_pow_6(), 90) == acc_6_90(),
{
    lemma_acc_6_89();
    lemma_alpha_x_89();
    lemma_alpha_byte_facts();
    reveal(bytes_p_6_90);
    reveal(alpha_pow_6);
    reveal(acc_6_89);
    reveal(acc_6_90);
    reveal(alpha_x_89);
    assert(bits_of_bytes(alpha_pow_6())[89] == bit_of(108u8, 1));
    assert(shift_add_mul(alpha_spec(), alpha_pow_6(), 90) =~= acc_6_90());
}

proof fn lemma_acc_6_91()
    ensures
        shift_add_mul(alpha_spec(), alpha_pow_6(), 91) == acc_6_91(),
{
    lemma_acc_6_90();
    lemma_alpha_x_90();
    lemma_alpha_byte_facts();
    reveal(bytes_p_6_91);
    reveal(alpha_pow_6);
    reveal(acc_6_90);
    reveal(acc_6_91);
    reveal(alpha_x_90);
    assert(bits_of_bytes(alpha_pow_6())[90] == bit_of(108u8, 2));
    assert(shift_add_mul(alpha_spec(), alpha_pow_6(), 91) =~= acc_6_91());
}

proof fn lemma_acc_6_92()
    ensures
        shift_add_mul(alpha_spec(), alpha_pow_6(), 92) == acc_6_92(),
{
    lemma_acc_6_91();
    lemma_alpha_x_91();
    lemma_alpha_byte_facts();
    reveal(bytes_p_6_92);
    reveal(alpha_pow_6);
    reveal(acc_6_91);
    reveal(acc_6_92);
    reveal(alpha_x_91);
    assert(bits_of_bytes(alpha_pow_6())[91] == bit_of(108u8, 3));
    assert(shift_add_mul(alpha_spec(), alpha_pow_6(), 92) =~= acc_6_92());
}

proof fn lemma_acc_6_93()
    ensures
        shift_add_mul(alpha_spec(), alpha_pow_6(), 93) == acc_6_93(),
{
    lemma_acc_6_92();
    lemma_alpha_x_92();
    lemma_alpha_byte_facts();
    reveal(bytes_p_6_93);
    reveal(alpha_pow_6);
    reveal(acc_6_92);
    reveal(acc_6_93);
    reveal(alpha_x_92);
    assert(bits_of_bytes(alpha_pow_6())[92] == bit_of(108u8, 4));
    assert(shift_add_mul(alpha_spec(), alpha_pow_6(), 93) =~= acc_6_93());
}

proof fn lemma_acc_6_94()
    ensures
        shift_add_mul(alpha_spec(), alpha_pow_6(), 94) == acc_6_94(),
{
    lemma_acc_6_93();
    lemma_alpha_x_93();
    lemma_alpha_byte_facts();
    reveal(bytes_p_6_94);
    reveal(alpha_pow_6);
    reveal(acc_6_93);
    reveal(acc_6_94);
    reveal(alpha_x_93);
    assert(bits_of_bytes(alpha_pow_6())[93] == bit_of(108u8, 5));
    assert(shift_add_mul(alpha_spec(), alpha_pow_6(), 94) =~= acc_6_94());
}

proof fn lemma_acc_6_95()
    ensures
        shift_add_mul(alpha_spec(), alpha_pow_6(), 95) == acc_6_95(),
{
    lemma_acc_6_94();
    lemma_alpha_x_94();
    lemma_alpha_byte_facts();
    reveal(bytes_p_6_95);
    reveal(alpha_pow_6);
    reveal(acc_6_94);
    reveal(acc_6_95);
    reveal(alpha_x_94);
    assert(bits_of_bytes(alpha_pow_6())[94] == bit_of(108u8, 6));
    assert(shift_add_mul(alpha_spec(), alpha_pow_6(), 95) =~= acc_6_95());
}

proof fn lemma_acc_6_96()
    ensures
        shift_add_mul(alpha_spec(), alpha_pow_6(), 96) == acc_6_96(),
{
    lemma_acc_6_95();
    lemma_alpha_x_95();
    lemma_alpha_byte_facts();
    reveal(bytes_p_6_96);
    reveal(alpha_pow_6);
    reveal(acc_6_95);
    reveal(acc_6_96);
    reveal(alpha_x_95);
    assert(bits_of_bytes(alpha_pow_6())[95] == bit_of(108u8, 7));
    assert(shift_add_mul(alpha_spec(), alpha_pow_6(), 96) =~= acc_6_96());
}

proof fn lemma_acc_6_97()
    ensures
        shift_add_mul(alpha_spec(), alpha_pow_6(), 97) == acc_6_97(),
{
    lemma_acc_6_96();
    lemma_alpha_x_96();
    lemma_alpha_byte_facts();
    reveal(bytes_p_6_97);
    reveal(alpha_pow_6);
    reveal(acc_6_96);
    reveal(acc_6_97);
    reveal(alpha_x_96);
    assert(bits_of_bytes(alpha_pow_6())[96] == bit_of(104u8, 0));
    assert(shift_add_mul(alpha_spec(), alpha_pow_6(), 97) =~= acc_6_97());
}

proof fn lemma_acc_6_98()
    ensures
        shift_add_mul(alpha_spec(), alpha_pow_6(), 98) == acc_6_98(),
{
    lemma_acc_6_97();
    lemma_alpha_x_97();
    lemma_alpha_byte_facts();
    reveal(bytes_p_6_98);
    reveal(alpha_pow_6);
    reveal(acc_6_97);
    reveal(acc_6_98);
    reveal(alpha_x_97);
    assert(bits_of_bytes(alpha_pow_6())[97] == bit_of(104u8, 1));
    assert(shift_add_mul(alpha_spec(), alpha_pow_6(), 98) =~= acc_6_98());
}

proof fn lemma_acc_6_99()
    ensures
        shift_add_mul(alpha_spec(), alpha_pow_6(), 99) == acc_6_99(),
{
    lemma_acc_6_98();
    lemma_alpha_x_98();
    lemma_alpha_byte_facts();
    reveal(bytes_p_6_99);
    reveal(alpha_pow_6);
    reveal(acc_6_98);
    reveal(acc_6_99);
    reveal(alpha_x_98);
    assert(bits_of_bytes(alpha_pow_6())[98] == bit_of(104u8, 2));
    assert(shift_add_mul(alpha_spec(), alpha_pow_6(), 99) =~= acc_6_99());
}

proof fn lemma_acc_6_100()
    ensures
        shift_add_mul(alpha_spec(), alpha_pow_6(), 100) == acc_6_100(),
{
    lemma_acc_6_99();
    lemma_alpha_x_99();
    lemma_alpha_byte_facts();
    reveal(bytes_p_6_100);
    reveal(alpha_pow_6);
    reveal(acc_6_99);
    reveal(acc_6_100);
    reveal(alpha_x_99);
    assert(bits_of_bytes(alpha_pow_6())[99] == bit_of(104u8, 3));
    assert(shift_add_mul(alpha_spec(), alpha_pow_6(), 100) =~= acc_6_100());
}

proof fn lemma_acc_6_101()
    ensures
        shift_add_mul(alpha_spec(), alpha_pow_6(), 101) == acc_6_101(),
{
    lemma_acc_6_100();
    lemma_alpha_x_100();
    lemma_alpha_byte_facts();
    reveal(bytes_p_6_101);
    reveal(alpha_pow_6);
    reveal(acc_6_100);
    reveal(acc_6_101);
    reveal(alpha_x_100);
    assert(bits_of_bytes(alpha_pow_6())[100] == bit_of(104u8, 4));
    assert(shift_add_mul(alpha_spec(), alpha_pow_6(), 101) =~= acc_6_101());
}

proof fn lemma_acc_6_102()
    ensures
        shift_add_mul(alpha_spec(), alpha_pow_6(), 102) == acc_6_102(),
{
    lemma_acc_6_101();
    lemma_alpha_x_101();
    lemma_alpha_byte_facts();
    reveal(bytes_p_6_102);
    reveal(alpha_pow_6);
    reveal(acc_6_101);
    reveal(acc_6_102);
    reveal(alpha_x_101);
    assert(bits_of_bytes(alpha_pow_6())[101] == bit_of(104u8, 5));
    assert(shift_add_mul(alpha_spec(), alpha_pow_6(), 102) =~= acc_6_102());
}

proof fn lemma_acc_6_103()
    ensures
        shift_add_mul(alpha_spec(), alpha_pow_6(), 103) == acc_6_103(),
{
    lemma_acc_6_102();
    lemma_alpha_x_102();
    lemma_alpha_byte_facts();
    reveal(bytes_p_6_103);
    reveal(alpha_pow_6);
    reveal(acc_6_102);
    reveal(acc_6_103);
    reveal(alpha_x_102);
    assert(bits_of_bytes(alpha_pow_6())[102] == bit_of(104u8, 6));
    assert(shift_add_mul(alpha_spec(), alpha_pow_6(), 103) =~= acc_6_103());
}

proof fn lemma_acc_6_104()
    ensures
        shift_add_mul(alpha_spec(), alpha_pow_6(), 104) == acc_6_104(),
{
    lemma_acc_6_103();
    lemma_alpha_x_103();
    lemma_alpha_byte_facts();
    reveal(bytes_p_6_104);
    reveal(alpha_pow_6);
    reveal(acc_6_103);
    reveal(acc_6_104);
    reveal(alpha_x_103);
    assert(bits_of_bytes(alpha_pow_6())[103] == bit_of(104u8, 7));
    assert(shift_add_mul(alpha_spec(), alpha_pow_6(), 104) =~= acc_6_104());
}

proof fn lemma_acc_6_105()
    ensures
        shift_add_mul(alpha_spec(), alpha_pow_6(), 105) == acc_6_105(),
{
    lemma_acc_6_104();
    lemma_alpha_x_104();
    lemma_alpha_byte_facts();
    reveal(bytes_p_6_105);
    reveal(alpha_pow_6);
    reveal(acc_6_104);
    reveal(acc_6_105);
    reveal(alpha_x_104);
    assert(bits_of_bytes(alpha_pow_6())[104] == bit_of(165u8, 0));
    assert(shift_add_mul(alpha_spec(), alpha_pow_6(), 105) =~= acc_6_105());
}

proof fn lemma_acc_6_106()
    ensures
        shift_add_mul(alpha_spec(), alpha_pow_6(), 106) == acc_6_106(),
{
    lemma_acc_6_105();
    lemma_alpha_x_105();
    lemma_alpha_byte_facts();
    reveal(bytes_p_6_106);
    reveal(alpha_pow_6);
    reveal(acc_6_105);
    reveal(acc_6_106);
    reveal(alpha_x_105);
    assert(bits_of_bytes(alpha_pow_6())[105] == bit_of(165u8, 1));
    assert(shift_add_mul(alpha_spec(), alpha_pow_6(), 106) =~= acc_6_106());
}

proof fn lemma_acc_6_107()
    ensures
        shift_add_mul(alpha_spec(), alpha_pow_6(), 107) == acc_6_107(),
{
    lemma_acc_6_106();
    lemma_alpha_x_106();
    lemma_alpha_byte_facts();
    reveal(bytes_p_6_107);
    reveal(alpha_pow_6);
    reveal(acc_6_106);
    reveal(acc_6_107);
    reveal(alpha_x_106);
    assert(bits_of_bytes(alpha_pow_6())[106] == bit_of(165u8, 2));
    assert(shift_add_mul(alpha_spec(), alpha_pow_6(), 107) =~= acc_6_107());
}

proof fn lemma_acc_6_108()
    ensures
        shift_add_mul(alpha_spec(), alpha_pow_6(), 108) == acc_6_108(),
{
    lemma_acc_6_107();
    lemma_alpha_x_107();
    lemma_alpha_byte_facts();
    reveal(bytes_p_6_108);
    reveal(alpha_pow_6);
    reveal(acc_6_107);
    reveal(acc_6_108);
    reveal(alpha_x_107);
    assert(bits_of_bytes(alpha_pow_6())[107] == bit_of(165u8, 3));
    assert(shift_add_mul(alpha_spec(), alpha_pow_6(), 108) =~= acc_6_108());
}

proof fn lemma_acc_6_109()
    ensures
        shift_add_mul(alpha_spec(), alpha_pow_6(), 109) == acc_6_109(),
{
    lemma_acc_6_108();
    lemma_alpha_x_108();
    lemma_alpha_byte_facts();
    reveal(bytes_p_6_109);
    reveal(alpha_pow_6);
    reveal(acc_6_108);
    reveal(acc_6_109);
    reveal(alpha_x_108);
    assert(bits_of_bytes(alpha_pow_6())[108] == bit_of(165u8, 4));
    assert(shift_add_mul(alpha_spec(), alpha_pow_6(), 109) =~= acc_6_109());
}

proof fn lemma_acc_6_110()
    ensures
        shift_add_mul(alpha_spec(), alpha_pow_6(), 110) == acc_6_110(),
{
    lemma_acc_6_109();
    lemma_alpha_x_109();
    lemma_alpha_byte_facts();
    reveal(bytes_p_6_110);
    reveal(alpha_pow_6);
    reveal(acc_6_109);
    reveal(acc_6_110);
    reveal(alpha_x_109);
    assert(bits_of_bytes(alpha_pow_6())[109] == bit_of(165u8, 5));
    assert(shift_add_mul(alpha_spec(), alpha_pow_6(), 110) =~= acc_6_110());
}

proof fn lemma_acc_6_111()
    ensures
        shift_add_mul(alpha_spec(), alpha_pow_6(), 111) == acc_6_111(),
{
    lemma_acc_6_110();
    lemma_alpha_x_110();
    lemma_alpha_byte_facts();
    reveal(bytes_p_6_111);
    reveal(alpha_pow_6);
    reveal(acc_6_110);
    reveal(acc_6_111);
    reveal(alpha_x_110);
    assert(bits_of_bytes(alpha_pow_6())[110] == bit_of(165u8, 6));
    assert(shift_add_mul(alpha_spec(), alpha_pow_6(), 111) =~= acc_6_111());
}

proof fn lemma_acc_6_112()
    ensures
        shift_add_mul(alpha_spec(), alpha_pow_6(), 112) == acc_6_112(),
{
    lemma_acc_6_111();
    lemma_alpha_x_111();
    lemma_alpha_byte_facts();
    reveal(bytes_p_6_112);
    reveal(alpha_pow_6);
    reveal(acc_6_111);
    reveal(acc_6_112);
    reveal(alpha_x_111);
    assert(bits_of_bytes(alpha_pow_6())[111] == bit_of(165u8, 7));
    assert(shift_add_mul(alpha_spec(), alpha_pow_6(), 112) =~= acc_6_112());
}

proof fn lemma_acc_6_113()
    ensures
        shift_add_mul(alpha_spec(), alpha_pow_6(), 113) == acc_6_113(),
{
    lemma_acc_6_112();
    lemma_alpha_x_112();
    lemma_alpha_byte_facts();
    reveal(bytes_p_6_113);
    reveal(alpha_pow_6);
    reveal(acc_6_112);
    reveal(acc_6_113);
    reveal(alpha_x_112);
    assert(bits_of_bytes(alpha_pow_6())[112] == bit_of(129u8, 0));
    assert(shift_add_mul(alpha_spec(), alpha_pow_6(), 113) =~= acc_6_113());
}

proof fn lemma_acc_6_114()
    ensures
        shift_add_mul(alpha_spec(), alpha_pow_6(), 114) == acc_6_114(),
{
    lemma_acc_6_113();
    lemma_alpha_x_113();
    lemma_alpha_byte_facts();
    reveal(bytes_p_6_114);
    reveal(alpha_pow_6);
    reveal(acc_6_113);
    reveal(acc_6_114);
    reveal(alpha_x_113);
    assert(bits_of_bytes(alpha_pow_6())[113] == bit_of(129u8, 1));
    assert(shift_add_mul(alpha_spec(), alpha_pow_6(), 114) =~= acc_6_114());
}

proof fn lemma_acc_6_115()
    ensures
        shift_add_mul(alpha_spec(), alpha_pow_6(), 115) == acc_6_115(),
{
    lemma_acc_6_114();
    lemma_alpha_x_114();
    lemma_alpha_byte_facts();
    reveal(bytes_p_6_115);
    reveal(alpha_pow_6);
    reveal(acc_6_114);
    reveal(acc_6_115);
    reveal(alpha_x_114);
    assert(bits_of_bytes(alpha_pow_6())[114] == bit_of(129u8, 2));
    assert(shift_add_mul(alpha_spec(), alpha_pow_6(), 115) =~= acc_6_115());
}

proof fn lemma_acc_6_116()
    ensures
        shift_add_mul(alpha_spec(), alpha_pow_6(), 116) == acc_6_116(),
{
    lemma_acc_6_115();
    lemma_alpha_x_115();
    lemma_alpha_byte_facts();
    reveal(bytes_p_6_116);
    reveal(alpha_pow_6);
    reveal(acc_6_115);
    reveal(acc_6_116);
    reveal(alpha_x_115);
    assert(bits_of_bytes(alpha_pow_6())[115] == bit_of(129u8, 3));
    assert(shift_add_mul(alpha_spec(), alpha_pow_6(), 116) =~= acc_6_116());
}

proof fn lemma_acc_6_117()
    ensures
        shift_add_mul(alpha_spec(), alpha_pow_6(), 117) == acc_6_117(),
{
    lemma_acc_6_116();
    lemma_alpha_x_116();
    lemma_alpha_byte_facts();
    reveal(bytes_p_6_117);
    reveal(alpha_pow_6);
    reveal(acc_6_116);
    reveal(acc_6_117);
    reveal(alpha_x_116);
    assert(bits_of_bytes(alpha_pow_6())[116] == bit_of(129u8, 4));
    assert(shift_add_mul(alpha_spec(), alpha_pow_6(), 117) =~= acc_6_117());
}

proof fn lemma_acc_6_118()
    ensures
        shift_add_mul(alpha_spec(), alpha_pow_6(), 118) == acc_6_118(),
{
    lemma_acc_6_117();
    lemma_alpha_x_117();
    lemma_alpha_byte_facts();
    reveal(bytes_p_6_118);
    reveal(alpha_pow_6);
    reveal(acc_6_117);
    reveal(acc_6_118);
    reveal(alpha_x_117);
    assert(bits_of_bytes(alpha_pow_6())[117] == bit_of(129u8, 5));
    assert(shift_add_mul(alpha_spec(), alpha_pow_6(), 118) =~= acc_6_118());
}

proof fn lemma_acc_6_119()
    ensures
        shift_add_mul(alpha_spec(), alpha_pow_6(), 119) == acc_6_119(),
{
    lemma_acc_6_118();
    lemma_alpha_x_118();
    lemma_alpha_byte_facts();
    reveal(bytes_p_6_119);
    reveal(alpha_pow_6);
    reveal(acc_6_118);
    reveal(acc_6_119);
    reveal(alpha_x_118);
    assert(bits_of_bytes(alpha_pow_6())[118] == bit_of(129u8, 6));
    assert(shift_add_mul(alpha_spec(), alpha_pow_6(), 119) =~= acc_6_119());
}

proof fn lemma_acc_6_120()
    ensures
        shift_add_mul(alpha_spec(), alpha_pow_6(), 120) == acc_6_120(),
{
    lemma_acc_6_119();
    lemma_alpha_x_119();
    lemma_alpha_byte_facts();
    reveal(bytes_p_6_120);
    reveal(alpha_pow_6);
    reveal(acc_6_119);
    reveal(acc_6_120);
    reveal(alpha_x_119);
    assert(bits_of_bytes(alpha_pow_6())[119] == bit_of(129u8, 7));
    assert(shift_add_mul(alpha_spec(), alpha_pow_6(), 120) =~= acc_6_120());
}

proof fn lemma_acc_6_121()
    ensures
        shift_add_mul(alpha_spec(), alpha_pow_6(), 121) == acc_6_121(),
{
    lemma_acc_6_120();
    lemma_alpha_x_120();
    lemma_alpha_byte_facts();
    reveal(bytes_p_6_121);
    reveal(alpha_pow_6);
    reveal(acc_6_120);
    reveal(acc_6_121);
    reveal(alpha_x_120);
    assert(bits_of_bytes(alpha_pow_6())[120] == bit_of(214u8, 0));
    assert(shift_add_mul(alpha_spec(), alpha_pow_6(), 121) =~= acc_6_121());
}

proof fn lemma_acc_6_122()
    ensures
        shift_add_mul(alpha_spec(), alpha_pow_6(), 122) == acc_6_122(),
{
    lemma_acc_6_121();
    lemma_alpha_x_121();
    lemma_alpha_byte_facts();
    reveal(bytes_p_6_122);
    reveal(alpha_pow_6);
    reveal(acc_6_121);
    reveal(acc_6_122);
    reveal(alpha_x_121);
    assert(bits_of_bytes(alpha_pow_6())[121] == bit_of(214u8, 1));
    assert(shift_add_mul(alpha_spec(), alpha_pow_6(), 122) =~= acc_6_122());
}

proof fn lemma_acc_6_123()
    ensures
        shift_add_mul(alpha_spec(), alpha_pow_6(), 123) == acc_6_123(),
{
    lemma_acc_6_122();
    lemma_alpha_x_122();
    lemma_alpha_byte_facts();
    reveal(bytes_p_6_123);
    reveal(alpha_pow_6);
    reveal(acc_6_122);
    reveal(acc_6_123);
    reveal(alpha_x_122);
    assert(bits_of_bytes(alpha_pow_6())[122] == bit_of(214u8, 2));
    assert(shift_add_mul(alpha_spec(), alpha_pow_6(), 123) =~= acc_6_123());
}

proof fn lemma_acc_6_124()
    ensures
        shift_add_mul(alpha_spec(), alpha_pow_6(), 124) == acc_6_124(),
{
    lemma_acc_6_123();
    lemma_alpha_x_123();
    lemma_alpha_byte_facts();
    reveal(bytes_p_6_124);
    reveal(alpha_pow_6);
    reveal(acc_6_123);
    reveal(acc_6_124);
    reveal(alpha_x_123);
    assert(bits_of_bytes(alpha_pow_6())[123] == bit_of(214u8, 3));
    assert(shift_add_mul(alpha_spec(), alpha_pow_6(), 124) =~= acc_6_124());
}

proof fn lemma_acc_6_125()
    ensures
        shift_add_mul(alpha_spec(), alpha_pow_6(), 125) == acc_6_125(),
{
    lemma_acc_6_124();
    lemma_alpha_x_124();
    lemma_alpha_byte_facts();
    reveal(bytes_p_6_125);
    reveal(alpha_pow_6);
    reveal(acc_6_124);
    reveal(acc_6_125);
    reveal(alpha_x_124);
    assert(bits_of_bytes(alpha_pow_6())[124] == bit_of(214u8, 4));
    assert(shift_add_mul(alpha_spec(), alpha_pow_6(), 125) =~= acc_6_125());
}

proof fn lemma_acc_6_126()
    ensures
        shift_add_mul(alpha_spec(), alpha_pow_6(), 126) == acc_6_126(),
{
    lemma_acc_6_125();
    lemma_alpha_x_125();
    lemma_alpha_byte_facts();
    reveal(bytes_p_6_126);
    reveal(alpha_pow_6);
    reveal(acc_6_125);
    reveal(acc_6_126);
    reveal(alpha_x_125);
    assert(bits_of_bytes(alpha_pow_6())[125] == bit_of(214u8, 5));
    assert(shift_add_mul(alpha_spec(), alpha_pow_6(), 126) =~= acc_6_126());
}

proof fn lemma_acc_6_127()
    ensures
        shift_add_mul(alpha_spec(), alpha_pow_6(), 127) == acc_6_127(),
{
    lemma_acc_6_126();
    lemma_alpha_x_126();
    lemma_alpha_byte_facts();
    reveal(bytes_p_6_127);
    reveal(alpha_pow_6);
    reveal(acc_6_126);
    reveal(acc_6_127);
    reveal(alpha_x_126);
    assert(bits_of_bytes(alpha_pow_6())[126] == bit_of(214u8, 6));
    assert(shift_add_mul(alpha_spec(), alpha_pow_6(), 127) =~= acc_6_127());
}

proof fn lemma_acc_6_128()
    ensures
        shift_add_mul(alpha_spec(), alpha_pow_6(), 128) == acc_6_128(),
{
    lemma_acc_6_127();
    lemma_alpha_x_127();
    lemma_alpha_byte_facts();
    reveal(bytes_p_6_128);
    reveal(alpha_pow_6);
    reveal(acc_6_127);
    reveal(acc_6_128);
    reveal(alpha_x_127);
    assert(bits_of_bytes(alpha_pow_6())[127] == bit_of(214u8, 7));
    assert(shift_add_mul(alpha_spec(), alpha_pow_6(), 128) =~= acc_6_128());
}

#[verifier::opaque]
spec fn acc_7_0() -> Seq<u8> {
    seq![0u8, 0u8, 0u8, 0u8, 0u8, 0u8, 0u8, 0u8, 0u8, 0u8, 0u8, 0u8, 0u8, 0u8, 0u8, 0u8]
}

#[verifier::opaque]
spec fn acc_7_1() -> Seq<u8> {
    seq![0u8, 0u8, 0u8, 0u8, 0u8, 0u8, 0u8, 0u8, 0u8, 0u8, 0u8, 0u8, 0u8, 0u8, 0u8, 0u8]
}

#[verifier::opaque]
spec fn acc_7_2() -> Seq<u8> {
    seq![0u8, 0u8, 0u8, 0u8, 0u8, 0u8, 0u8, 0u8, 0u8, 0u8, 0u8, 0u8, 0u8, 0u8, 0u8, 0u8]
}

#[verifier::opaque]
spec fn acc_7_3() -> Seq<u8> {
    seq![52u8, 56u8, 131u8, 85u8, 177u8, 162u8, 255u8, 132u8, 114u8, 104u8, 94u8, 166u8, 86u8, 21u8, 246u8, 20u8]
}

#[verifier::opaque]
spec fn acc_7_4() -> Seq<u8> {
    seq![92u8, 72u8, 133u8, 254u8, 211u8, 231u8, 0u8, 141u8, 151u8, 184u8, 226u8, 234u8, 251u8, 63u8, 26u8, 61u8]
}

#[verifier::opaque]
spec fn acc_7_5() -> Seq<u8> {
    seq![140u8, 168u8, 137u8, 168u8, 22u8, 109u8, 254u8, 158u8, 93u8, 25u8, 155u8, 115u8, 161u8, 106u8, 194u8, 110u8]
}

#[verifier::opaque]
spec fn acc_7_6() -> Seq<u8> {
    seq![44u8, 105u8, 144u8, 4u8, 156u8, 120u8, 3u8, 185u8, 201u8, 90u8, 104u8, 65u8, 20u8, 192u8, 114u8, 201u8]
}

#[verifier::opaque]
spec fn acc_7_7() -> Seq<u8> {
    seq![44u8, 105u8, 144u8, 4u8, 156u8, 120u8, 3u8, 185u8, 201u8, 90u8, 104u8, 65u8, 20u8, 192u8, 114u8, 201u8]
}

#[verifier::opaque]
spec fn acc_7_8() -> Seq<u8> {
    seq![162u8, 110u8, 247u8, 180u8, 182u8, 46u8, 247u8, 38u8, 153u8, 84u8, 165u8, 138u8, 192u8, 106u8, 176u8, 87u8]
}

#[verifier::opaque]
spec fn acc_7_9() -> Seq<u8> {
    seq![57u8, 97u8, 57u8, 212u8, 227u8, 130u8, 31u8, 25u8, 56u8, 72u8, 63u8, 29u8, 105u8, 63u8, 53u8, 106u8]
}

#[verifier::opaque]
spec fn acc_7_10() -> Seq<u8> {
    seq![57u8, 97u8, 57u8, 212u8, 227u8, 130u8, 31u8, 25u8, 56u8, 72u8, 63u8, 29u8, 105u8, 63u8, 53u8, 106u8]
}

#[verifier::opaque]
spec fn acc_7_11() -> Seq<u8> {
    seq![57u8, 97u8, 57u8, 212u8, 227u8, 130u8, 31u8, 25u8, 56u8, 72u8, 63u8, 29u8, 105u8, 63u8, 53u8, 106u8]
}

#[verifier::opaque]
spec fn acc_7_12() -> Seq<u8> {
    seq![102u8, 29u8, 73u8, 210u8, 72u8, 224u8, 90u8, 230u8, 49u8, 173u8, 239u8, 161u8, 37u8, 146u8, 31u8, 134u8]
}

#[verifier::opaque]
spec fn acc_7_13() -> Seq<u8> {
    seq![95u8, 229u8, 169u8, 222u8, 30u8, 37u8, 208u8, 24u8, 34u8, 103u8, 78u8, 216u8, 188u8, 200u8, 74u8, 94u8]
}

#[verifier::opaque]
spec fn acc_7_14() -> Seq<u8> {
    seq![170u8, 21u8, 104u8, 199u8, 178u8, 175u8, 197u8, 229u8, 5u8, 243u8, 13u8, 43u8, 142u8, 125u8, 224u8, 238u8]
}

#[verifier::opaque]
spec fn acc_7_15() -> Seq<u8> {
    seq![199u8, 244u8, 235u8, 244u8, 234u8, 186u8, 238u8, 31u8, 74u8, 219u8, 138u8, 205u8, 235u8, 23u8, 181u8, 143u8]
}

#[verifier::opaque]
spec fn acc_7_16() -> Seq<u8> {
    seq![29u8, 54u8, 236u8, 147u8, 90u8, 144u8, 184u8, 235u8, 213u8, 139u8, 132u8, 0u8, 32u8, 195u8, 31u8, 77u8]
}

#[verifier::opaque]
spec fn acc_7_17() -> Seq<u8> {
    seq![29u8, 54u8, 236u8, 147u8, 90u8, 144u8, 184u8, 235u8, 213u8, 139u8, 132u8, 0u8, 32u8, 195u8, 31u8, 77u8]
}

#[verifier::opaque]
spec fn acc_7_18() -> Seq<u8> {
    seq![252u8, 60u8, 243u8, 15u8, 155u8, 58u8, 224u8, 58u8, 170u8, 201u8, 189u8, 52u8, 15u8, 144u8, 180u8, 71u8]
}

#[verifier::opaque]
spec fn acc_7_19() -> Seq<u8> {
    seq![62u8, 41u8, 205u8, 55u8, 24u8, 111u8, 81u8, 152u8, 85u8, 77u8, 207u8, 92u8, 81u8, 54u8, 226u8, 82u8]
}

#[verifier::opaque]
spec fn acc_7_20() -> Seq<u8> {
    seq![62u8, 41u8, 205u8, 55u8, 24u8, 111u8, 81u8, 152u8, 85u8, 77u8, 207u8, 92u8, 81u8, 54u8, 226u8, 82u8]
}

#[verifier::opaque]
spec fn acc_7_21() -> Seq<u8> {
    seq![54u8, 126u8, 53u8, 215u8, 20u8, 57u8, 148u8, 18u8, 171u8, 94u8, 5u8, 253u8, 40u8, 175u8, 184u8, 7u8]
}

#[verifier::opaque]
spec fn acc_7_22() -> Seq<u8> {
    seq![38u8, 208u8, 197u8, 22u8, 13u8, 149u8, 30u8, 7u8, 86u8, 121u8, 145u8, 190u8, 219u8, 157u8, 13u8, 173u8]
}

#[verifier::opaque]
spec fn acc_7_23() -> Seq<u8> {
    seq![38u8, 208u8, 197u8, 22u8, 13u8, 149u8, 30u8, 7u8, 86u8, 121u8, 145u8, 190u8, 219u8, 157u8, 13u8, 173u8]
}

#[verifier::opaque]
spec fn acc_7_24() -> Seq<u8> {
    seq![38u8, 208u8, 197u8, 22u8, 13u8, 149u8, 30u8, 7u8, 86u8, 121u8, 145u8, 190u8, 219u8, 157u8, 13u8, 173u8]
}

#[verifier::opaque]
spec fn acc_7_25() -> Seq<u8> {
    seq![61u8, 162u8, 64u8, 25u8, 195u8, 245u8, 75u8, 171u8, 190u8, 70u8, 48u8, 162u8, 65u8, 10u8, 164u8, 248u8]
}

#[verifier::opaque]
spec fn acc_7_26() -> Seq<u8> {
    seq![61u8, 162u8, 64u8, 25u8, 195u8, 245u8, 75u8, 171u8, 190u8, 70u8, 48u8, 162u8, 65u8, 10u8, 164u8, 248u8]
}

#[verifier::opaque]
spec fn acc_7_27() -> Seq<u8> {
    seq![61u8, 162u8, 64u8, 25u8, 195u8, 245u8, 75u8, 171u8, 190u8, 70u8, 48u8, 162u8, 65u8, 10u8, 164u8, 248u8]
}

#[verifier::opaque]
spec fn acc_7_28() -> Seq<u8> {
    seq![61u8, 162u8, 64u8, 25u8, 195u8, 245u8, 75u8, 171u8, 190u8, 70u8, 48u8, 162u8, 65u8, 10u8, 164u8, 248u8]
}

#[verifier::opaque]
spec fn acc_7_29() -> Seq<u8> {
    seq![61u8, 162u8, 64u8, 25u8, 195u8, 245u8, 75u8, 171u8, 190u8, 70u8, 48u8, 162u8, 65u8, 10u8, 164u8, 248u8]
}

#[verifier::opaque]
spec fn acc_7_30() -> Seq<u8> {
    seq![107u8, 228u8, 238u8, 233u8, 2u8, 236u8, 231u8, 33u8, 171u8, 187u8, 23u8, 54u8, 2u8, 249u8, 150u8, 77u8]
}

#[verifier::opaque]
spec fn acc_7_31() -> Seq<u8> {
    seq![64u8, 104u8, 178u8, 8u8, 129u8, 223u8, 191u8, 52u8, 128u8, 65u8, 88u8, 30u8, 133u8, 31u8, 243u8, 39u8]
}

#[verifier::opaque]
spec fn acc_7_32() -> Seq<u8> {
    seq![22u8, 112u8, 11u8, 202u8, 134u8, 184u8, 15u8, 30u8, 214u8, 181u8, 199u8, 78u8, 139u8, 210u8, 56u8, 243u8]
}

#[verifier::opaque]
spec fn acc_7_33() -> Seq<u8> {
    seq![22u8, 112u8, 11u8, 202u8, 134u8, 184u8, 15u8, 30u8, 214u8, 181u8, 199u8, 78u8, 139u8, 210u8, 56u8, 243u8]
}

#[verifier::opaque]
spec fn acc_7_34() -> Seq<u8> {
    seq![22u8, 112u8, 11u8, 202u8, 134u8, 184u8, 15u8, 30u8, 214u8, 181u8, 199u8, 78u8, 139u8, 210u8, 56u8, 243u8]
}

#[verifier::opaque]
spec fn acc_7_35() -> Seq<u8> {
    seq![180u8, 177u8, 195u8, 223u8, 184u8, 128u8, 140u8, 75u8, 103u8, 23u8, 56u8, 202u8, 249u8, 186u8, 102u8, 85u8]
}

#[verifier::opaque]
spec fn acc_7_36() -> Seq<u8> {
    seq![180u8, 177u8, 195u8, 223u8, 184u8, 128u8, 140u8, 75u8, 103u8, 23u8, 56u8, 202u8, 249u8, 186u8, 102u8, 85u8]
}

#[verifier::opaque]
spec fn acc_7_37() -> Seq<u8> {
    seq![50u8, 182u8, 224u8, 136u8, 64u8, 96u8, 128u8, 29u8, 162u8, 157u8, 198u8, 217u8, 51u8, 27u8, 31u8, 204u8]
}

#[verifier::opaque]
spec fn acc_7_38() -> Seq<u8> {
    seq![50u8, 182u8, 224u8, 136u8, 64u8, 96u8, 128u8, 29u8, 162u8, 157u8, 198u8, 217u8, 51u8, 27u8, 31u8, 204u8]
}

#[verifier::opaque]
spec fn acc_7_39() -> Seq<u8> {
    seq![50u8, 182u8, 224u8, 136u8, 64u8, 96u8, 128u8, 29u8, 162u8, 157u8, 198u8, 217u8, 51u8, 27u8, 31u8, 204u8]
}

#[verifier::opaque]
spec fn acc_7_40() -> Seq<u8> {
    seq![30u8, 136u8, 248u8, 49u8, 130u8, 103u8, 231u8, 173u8, 136u8, 203u8, 50u8, 70u8, 99u8, 21u8, 210u8, 7u8]
}

#[verifier::opaque]
spec fn acc_7_41() -> Seq<u8> {
    seq![30u8, 136u8, 248u8, 49u8, 130u8, 103u8, 231u8, 173u8, 136u8, 203u8, 50u8, 70u8, 99u8, 21u8, 210u8, 7u8]
}

#[verifier::opaque]
spec fn acc_7_42() -> Seq<u8> {
    seq![39u8, 113u8, 152u8, 213u8, 136u8, 120u8, 123u8, 108u8, 34u8, 147u8, 227u8, 57u8, 33u8, 44u8, 230u8, 40u8]
}

#[verifier::opaque]
spec fn acc_7_43() -> Seq<u8> {
    seq![85u8, 131u8, 89u8, 29u8, 157u8, 70u8, 67u8, 239u8, 119u8, 34u8, 65u8, 198u8, 165u8, 94u8, 142u8, 118u8]
}

#[verifier::opaque]
spec fn acc_7_44() -> Seq<u8> {
    seq![177u8, 103u8, 218u8, 140u8, 182u8, 58u8, 51u8, 233u8, 220u8, 64u8, 4u8, 57u8, 172u8, 187u8, 94u8, 202u8]
}

#[verifier::opaque]
spec fn acc_7_45() -> Seq<u8> {
    seq![177u8, 103u8, 218u8, 140u8, 182u8, 58u8, 51u8, 233u8, 220u8, 64u8, 4u8, 57u8, 172u8, 187u8, 94u8, 202u8]
}

#[verifier::opaque]
spec fn acc_7_46() -> Seq<u8> {
    seq![177u8, 103u8, 218u8, 140u8, 182u8, 58u8, 51u8, 233u8, 220u8, 64u8, 4u8, 57u8, 172u8, 187u8, 94u8, 202u8]
}

#[verifier::opaque]
spec fn acc_7_47() -> Seq<u8> {
    seq![177u8, 103u8, 218u8, 140u8, 182u8, 58u8, 51u8, 233u8, 220u8, 64u8, 4u8, 57u8, 172u8, 187u8, 94u8, 202u8]
}

#[verifier::opaque]
spec fn acc_7_48() -> Seq<u8> {
    seq![64u8, 44u8, 228u8, 148u8, 15u8, 248u8, 52u8, 142u8, 108u8, 106u8, 82u8, 205u8, 51u8, 235u8, 80u8, 7u8]
}

#[verifier::opaque]
spec fn acc_7_49() -> Seq<u8> {
    seq![64u8, 44u8, 228u8, 148u8, 15u8, 248u8, 52u8, 142u8, 108u8, 106u8, 82u8, 205u8, 51u8, 235u8, 80u8, 7u8]
}

#[verifier::opaque]
spec fn acc_7_50() -> Seq<u8> {
    seq![13u8, 2u8, 29u8, 244u8, 235u8, 242u8, 43u8, 18u8, 173u8, 192u8, 10u8, 28u8, 76u8, 169u8, 105u8, 51u8]
}

#[verifier::opaque]
spec fn acc_7_51() -> Seq<u8> {
    seq![13u8, 2u8, 29u8, 244u8, 235u8, 242u8, 43u8, 18u8, 173u8, 192u8, 10u8, 28u8, 76u8, 169u8, 105u8, 51u8]
}

#[verifier::opaque]
spec fn acc_7_52() -> Seq<u8> {
    seq![57u8, 187u8, 249u8, 119u8, 122u8, 217u8, 87u8, 98u8, 171u8, 107u8, 104u8, 89u8, 179u8, 160u8, 140u8, 227u8]
}

#[verifier::opaque]
spec fn acc_7_53() -> Seq<u8> {
    seq![214u8, 201u8, 48u8, 112u8, 89u8, 142u8, 175u8, 130u8, 167u8, 61u8, 173u8, 211u8, 77u8, 179u8, 70u8, 66u8]
}

#[verifier::opaque]
spec fn acc_7_54() -> Seq<u8> {
    seq![143u8, 44u8, 162u8, 127u8, 31u8, 32u8, 95u8, 67u8, 190u8, 145u8, 39u8, 198u8, 176u8, 148u8, 210u8, 1u8]
}

#[verifier::opaque]
spec fn acc_7_55() -> Seq<u8> {
    seq![61u8, 230u8, 135u8, 96u8, 147u8, 124u8, 190u8, 192u8, 141u8, 201u8, 50u8, 237u8, 74u8, 219u8, 250u8, 134u8]
}

#[verifier::opaque]
spec fn acc_7_56() -> Seq<u8> {
    seq![61u8, 230u8, 135u8, 96u8, 147u8, 124u8, 190u8, 192u8, 141u8, 201u8, 50u8, 237u8, 74u8, 219u8, 250u8, 134u8]
}

#[verifier::opaque]
spec fn acc_7_57() -> Seq<u8> {
    seq![61u8, 230u8, 135u8, 96u8, 147u8, 124u8, 190u8, 192u8, 141u8, 201u8, 50u8, 237u8, 74u8, 219u8, 250u8, 134u8]
}

#[verifier::opaque]
spec fn acc_7_58() -> Seq<u8> {
    seq![177u8, 177u8, 169u8, 153u8, 243u8, 152u8, 180u8, 223u8, 17u8, 8u8, 152u8, 181u8, 155u8, 164u8, 184u8, 191u8]
}

#[verifier::opaque]
spec fn acc_7_59() -> Seq<u8> {
    seq![177u8, 177u8, 169u8, 153u8, 243u8, 152u8, 180u8, 223u8, 17u8, 8u8, 152u8, 181u8, 155u8, 164u8, 184u8, 191u8]
}

#[verifier::opaque]
spec fn acc_7_60() -> Seq<u8> {
    seq![129u8, 239u8, 16u8, 125u8, 112u8, 9u8, 159u8, 163u8, 97u8, 14u8, 51u8, 215u8, 222u8, 91u8, 177u8, 90u8]
}

#[verifier::opaque]
spec fn acc_7_61() -> Seq<u8> {
    seq![102u8, 83u8, 98u8, 180u8, 119u8, 42u8, 200u8, 91u8, 129u8, 2u8, 101u8, 18u8, 84u8, 165u8, 162u8, 144u8]
}

#[verifier::opaque]
spec fn acc_7_62() -> Seq<u8> {
    seq![47u8, 42u8, 135u8, 38u8, 120u8, 108u8, 102u8, 171u8, 64u8, 27u8, 201u8, 152u8, 65u8, 88u8, 133u8, 4u8]
}

#[verifier::opaque]
spec fn acc_7_63() -> Seq<u8> {
    seq![58u8, 216u8, 77u8, 3u8, 103u8, 224u8, 58u8, 74u8, 195u8, 40u8, 145u8, 141u8, 106u8, 162u8, 202u8, 44u8]
}

#[verifier::opaque]
spec fn acc_7_64() -> Seq<u8> {
    seq![58u8, 216u8, 77u8, 3u8, 103u8, 224u8, 58u8, 74u8, 195u8, 40u8, 145u8, 141u8, 106u8, 162u8, 202u8, 44u8]
}

#[verifier::opaque]
spec fn acc_7_65() -> Seq<u8> {
    seq![58u8, 216u8, 77u8, 3u8, 103u8, 224u8, 58u8, 74u8, 195u8, 40u8, 145u8, 141u8, 106u8, 162u8, 202u8, 44u8]
}

#[verifier::opaque]
spec fn acc_7_66() -> Seq<u8> {
    seq![58u8, 216u8, 77u8, 3u8, 103u8, 224u8, 58u8, 74u8, 195u8, 40u8, 145u8, 141u8, 106u8, 162u8, 202u8, 44u8]
}

#[verifier::opaque]
spec fn acc_7_67() -> Seq<u8> {
    seq![58u8, 216u8, 77u8, 3u8, 103u8, 224u8, 58u8, 74u8, 195u8, 40u8, 145u8, 141u8, 106u8, 162u8, 202u8, 44u8]
}

#[verifier::opaque]
spec fn acc_7_68() -> Seq<u8> {
    seq![58u8, 216u8, 77u8, 3u8, 103u8, 224u8, 58u8, 74u8, 195u8, 40u8, 145u8, 141u8, 106u8, 162u8, 202u8, 44u8]
}

#[verifier::opaque]
spec fn acc_7_69() -> Seq<u8> {
    seq![58u8, 216u8, 77u8, 3u8, 103u8, 224u8, 58u8, 74u8, 195u8, 40u8, 145u8, 141u8, 106u8, 162u8, 202u8, 44u8]
}

#[verifier::opaque]
spec fn acc_7_70() -> Seq<u8> {
    seq![214u8, 216u8, 52u8, 230u8, 245u8, 239u8, 124u8, 228u8, 51u8, 233u8, 136u8, 33u8, 224u8, 183u8, 55u8, 11u8]
}

#[verifier::opaque]
spec fn acc_7_71() -> Seq<u8> {
    seq![14u8, 217u8, 198u8, 44u8, 208u8, 240u8, 240u8, 184u8, 210u8, 106u8, 187u8, 121u8, 245u8, 156u8, 205u8, 68u8]
}

#[verifier::opaque]
spec fn acc_7_72() -> Seq<u8> {
    seq![190u8, 218u8, 34u8, 185u8, 155u8, 206u8, 232u8, 1u8, 16u8, 109u8, 220u8, 201u8, 223u8, 202u8, 57u8, 219u8]
}

#[verifier::opaque]
spec fn acc_7_73() -> Seq<u8> {
    seq![89u8, 221u8, 234u8, 146u8, 12u8, 178u8, 216u8, 115u8, 149u8, 98u8, 18u8, 169u8, 138u8, 102u8, 209u8, 228u8]
}

#[verifier::opaque]
spec fn acc_7_74() -> Seq<u8> {
    seq![151u8, 210u8, 122u8, 197u8, 34u8, 75u8, 184u8, 151u8, 159u8, 125u8, 142u8, 104u8, 32u8, 62u8, 0u8, 155u8]
}

#[verifier::opaque]
spec fn acc_7_75() -> Seq<u8> {
    seq![11u8, 205u8, 90u8, 106u8, 126u8, 185u8, 121u8, 95u8, 138u8, 67u8, 182u8, 235u8, 117u8, 143u8, 162u8, 100u8]
}

#[verifier::opaque]
spec fn acc_7_76() -> Seq<u8> {
    seq![180u8, 242u8, 26u8, 52u8, 199u8, 93u8, 250u8, 206u8, 161u8, 63u8, 198u8, 237u8, 222u8, 237u8, 231u8, 155u8]
}

#[verifier::opaque]
spec fn acc_7_77() -> Seq<u8> {
    seq![180u8, 242u8, 26u8, 52u8, 199u8, 93u8, 250u8, 206u8, 161u8, 63u8, 198u8, 237u8, 222u8, 237u8, 231u8, 155u8]
}

#[verifier::opaque]
spec fn acc_7_78() -> Seq<u8> {
    seq![180u8, 242u8, 26u8, 52u8, 199u8, 93u8, 250u8, 206u8, 161u8, 63u8, 198u8, 237u8, 222u8, 237u8, 231u8, 155u8]
}

#[verifier::opaque]
spec fn acc_7_79() -> Seq<u8> {
    seq![180u8, 242u8, 26u8, 52u8, 199u8, 93u8, 250u8, 206u8, 161u8, 63u8, 198u8, 237u8, 222u8, 237u8, 231u8, 155u8]
}

#[verifier::opaque]
spec fn acc_7_80() -> Seq<u8> {
    seq![233u8, 14u8, 25u8, 208u8, 82u8, 22u8, 196u8, 214u8, 24u8, 253u8, 193u8, 138u8, 110u8, 199u8, 177u8, 111u8]
}

#[verifier::opaque]
spec fn acc_7_81() -> Seq<u8> {
    seq![212u8, 246u8, 30u8, 24u8, 121u8, 129u8, 184u8, 230u8, 106u8, 120u8, 206u8, 68u8, 14u8, 146u8, 29u8, 135u8]
}

#[verifier::opaque]
spec fn acc_7_82() -> Seq<u8> {
    seq![41u8, 6u8, 17u8, 136u8, 46u8, 175u8, 65u8, 134u8, 142u8, 114u8, 209u8, 216u8, 207u8, 56u8, 69u8, 86u8]
}

#[verifier::opaque]
spec fn acc_7_83() -> Seq<u8> {
    seq![84u8, 231u8, 14u8, 168u8, 129u8, 243u8, 179u8, 71u8, 70u8, 103u8, 239u8, 224u8, 76u8, 109u8, 244u8, 244u8]
}

#[verifier::opaque]
spec fn acc_7_84() -> Seq<u8> {
    seq![84u8, 231u8, 14u8, 168u8, 129u8, 243u8, 179u8, 71u8, 70u8, 103u8, 239u8, 224u8, 76u8, 109u8, 244u8, 244u8]
}

#[verifier::opaque]
spec fn acc_7_85() -> Seq<u8> {
    seq![174u8, 99u8, 113u8, 40u8, 61u8, 129u8, 122u8, 64u8, 101u8, 48u8, 23u8, 0u8, 64u8, 59u8, 49u8, 126u8]
}

#[verifier::opaque]
spec fn acc_7_86() -> Seq<u8> {
    seq![221u8, 106u8, 142u8, 40u8, 68u8, 100u8, 232u8, 79u8, 35u8, 158u8, 231u8, 193u8, 89u8, 151u8, 187u8, 107u8]
}

#[verifier::opaque]
spec fn acc_7_87() -> Seq<u8> {
    seq![221u8, 106u8, 142u8, 40u8, 68u8, 100u8, 232u8, 79u8, 35u8, 158u8, 231u8, 193u8, 89u8, 151u8, 187u8, 107u8]
}

#[verifier::opaque]
spec fn acc_7_88() -> Seq<u8> {
    seq![17u8, 79u8, 114u8, 43u8, 160u8, 241u8, 163u8, 113u8, 59u8, 39u8, 37u8, 198u8, 62u8, 39u8, 145u8, 61u8]
}

#[verifier::opaque]
spec fn acc_7_89() -> Seq<u8> {
    seq![137u8, 4u8, 138u8, 44u8, 104u8, 218u8, 52u8, 13u8, 11u8, 85u8, 160u8, 201u8, 240u8, 71u8, 196u8, 145u8]
}

#[verifier::opaque]
spec fn acc_7_90() -> Seq<u8> {
    seq![62u8, 147u8, 122u8, 35u8, 248u8, 141u8, 26u8, 244u8, 107u8, 177u8, 170u8, 214u8, 108u8, 134u8, 110u8, 201u8]
}

#[verifier::opaque]
spec fn acc_7_91() -> Seq<u8> {
    seq![80u8, 188u8, 155u8, 60u8, 216u8, 34u8, 70u8, 6u8, 170u8, 121u8, 191u8, 232u8, 84u8, 5u8, 59u8, 120u8]
}

#[verifier::opaque]
spec fn acc_7_92() -> Seq<u8> {
    seq![11u8, 226u8, 89u8, 3u8, 152u8, 124u8, 255u8, 226u8, 41u8, 232u8, 148u8, 148u8, 36u8, 3u8, 144u8, 26u8]
}

#[verifier::opaque]
spec fn acc_7_93() -> Seq<u8> {
    seq![11u8, 226u8, 89u8, 3u8, 152u8, 124u8, 255u8, 226u8, 41u8, 232u8, 148u8, 148u8, 36u8, 3u8, 144u8, 26u8]
}

#[verifier::opaque]
spec fn acc_7_94() -> Seq<u8> {
    seq![11u8, 226u8, 89u8, 3u8, 152u8, 124u8, 255u8, 226u8, 41u8, 232u8, 148u8, 148u8, 36u8, 3u8, 144u8, 26u8]
}

#[verifier::opaque]
spec fn acc_7_95() -> Seq<u8> {
    seq![90u8, 17u8, 75u8, 253u8, 153u8, 142u8, 53u8, 199u8, 54u8, 100u8, 200u8, 117u8, 167u8, 48u8, 200u8, 15u8]
}

#[verifier::opaque]
spec fn acc_7_96() -> Seq<u8> {
    seq![90u8, 17u8, 75u8, 253u8, 153u8, 142u8, 53u8, 199u8, 54u8, 100u8, 200u8, 117u8, 167u8, 48u8, 200u8, 15u8]
}

#[verifier::opaque]
spec fn acc_7_97() -> Seq<u8> {
    seq![90u8, 17u8, 75u8, 253u8, 153u8, 142u8, 53u8, 199u8, 54u8, 100u8, 200u8, 117u8, 167u8, 48u8, 200u8, 15u8]
}

#[verifier::opaque]
spec fn acc_7_98() -> Seq<u8> {
    seq![210u8, 139u8, 220u8, 13u8, 150u8, 30u8, 98u8, 233u8, 207u8, 4u8, 44u8, 127u8, 184u8, 172u8, 9u8, 165u8]
}

#[verifier::opaque]
spec fn acc_7_99() -> Seq<u8> {
    seq![210u8, 139u8, 220u8, 13u8, 150u8, 30u8, 98u8, 233u8, 207u8, 4u8, 44u8, 127u8, 184u8, 172u8, 9u8, 165u8]
}

#[verifier::opaque]
spec fn acc_7_100() -> Seq<u8> {
    seq![252u8, 224u8, 130u8, 207u8, 169u8, 94u8, 60u8, 80u8, 43u8, 135u8, 189u8, 84u8, 196u8, 220u8, 15u8, 14u8]
}

#[verifier::opaque]
spec fn acc_7_101() -> Seq<u8> {
    seq![39u8, 54u8, 62u8, 75u8, 214u8, 222u8, 128u8, 34u8, 226u8, 128u8, 158u8, 3u8, 60u8, 60u8, 3u8, 88u8]
}

#[verifier::opaque]
spec fn acc_7_102() -> Seq<u8> {
    seq![39u8, 54u8, 62u8, 75u8, 214u8, 222u8, 128u8, 34u8, 226u8, 128u8, 158u8, 3u8, 60u8, 60u8, 3u8, 88u8]
}

#[verifier::opaque]
spec fn acc_7_103() -> Seq<u8> {
    seq![39u8, 54u8, 62u8, 75u8, 214u8, 222u8, 128u8, 34u8, 226u8, 128u8, 158u8, 3u8, 60u8, 60u8, 3u8, 88u8]
}

#[verifier::opaque]
spec fn acc_7_104() -> Seq<u8> {
    seq![39u8, 54u8, 62u8, 75u8, 214u8, 222u8, 128u8, 34u8, 226u8, 128u8, 158u8, 3u8, 60u8, 60u8, 3u8, 88u8]
}

#[verifier::opaque]
spec fn acc_7_105() -> Seq<u8> {
    seq![12u8, 89u8, 243u8, 0u8, 46u8, 217u8, 72u8, 9u8, 117u8, 252u8, 174u8, 113u8, 185u8, 51u8, 205u8, 56u8]
}

#[verifier::opaque]
spec fn acc_7_106() -> Seq<u8> {
    seq![12u8, 89u8, 243u8, 0u8, 46u8, 217u8, 72u8, 9u8, 117u8, 252u8, 174u8, 113u8, 185u8, 51u8, 205u8, 56u8]
}

#[verifier::opaque]
spec fn acc_7_107() -> Seq<u8> {
    seq![12u8, 89u8, 243u8, 0u8, 46u8, 217u8, 72u8, 9u8, 117u8, 252u8, 174u8, 113u8, 185u8, 51u8, 205u8, 56u8]
}

#[verifier::opaque]
spec fn acc_7_108() -> Seq<u8> {
    seq![12u8, 89u8, 243u8, 0u8, 46u8, 217u8, 72u8, 9u8, 117u8, 252u8, 174u8, 113u8, 185u8, 51u8, 205u8, 56u8]
}

#[verifier::opaque]
spec fn acc_7_109() -> Seq<u8> {
    seq![174u8, 168u8, 37u8, 188u8, 170u8, 166u8, 200u8, 181u8, 7u8, 53u8, 169u8, 82u8, 238u8, 203u8, 45u8, 52u8]
}

#[verifier::opaque]
spec fn acc_7_110() -> Seq<u8> {
    seq![234u8, 75u8, 136u8, 197u8, 163u8, 89u8, 200u8, 204u8, 226u8, 167u8, 166u8, 20u8, 64u8, 59u8, 236u8, 45u8]
}

#[verifier::opaque]
spec fn acc_7_111() -> Seq<u8> {
    seq![234u8, 75u8, 136u8, 197u8, 163u8, 89u8, 200u8, 204u8, 226u8, 167u8, 166u8, 20u8, 64u8, 59u8, 236u8, 45u8]
}

#[verifier::opaque]
spec fn acc_7_112() -> Seq<u8> {
    seq![234u8, 75u8, 136u8, 197u8, 163u8, 89u8, 200u8, 204u8, 226u8, 167u8, 166u8, 20u8, 64u8, 59u8, 236u8, 45u8]
}

#[verifier::opaque]
spec fn acc_7_113() -> Seq<u8> {
    seq![234u8, 75u8, 136u8, 197u8, 163u8, 89u8, 200u8, 204u8, 226u8, 167u8, 166u8, 20u8, 64u8, 59u8, 236u8, 45u8]
}

#[verifier::opaque]
spec fn acc_7_114() -> Seq<u8> {
    seq![234u8, 75u8, 136u8, 197u8, 163u8, 89u8, 200u8, 204u8, 226u8, 167u8, 166u8, 20u8, 64u8, 59u8, 236u8, 45u8]
}

#[verifier::opaque]
spec fn acc_7_115() -> Seq<u8> {
    seq![234u8, 75u8, 136u8, 197u8, 163u8, 89u8, 200u8, 204u8, 226u8, 167u8, 166u8, 20u8, 64u8, 59u8, 236u8, 45u8]
}

#[verifier::opaque]
spec fn acc_7_116() -> Seq<u8> {
    seq![234u8, 75u8, 136u8, 197u8, 163u8, 89u8, 200u8, 204u8, 226u8, 167u8, 166u8, 20u8, 64u8, 59u8, 236u8, 45u8]
}

#[verifier::opaque]
spec fn acc_7_117() -> Seq<u8> {
    seq![206u8, 239u8, 121u8, 19u8, 31u8, 221u8, 183u8, 76u8, 94u8, 213u8, 111u8, 19u8, 99u8, 108u8, 20u8, 205u8]
}

#[verifier::opaque]
spec fn acc_7_118() -> Seq<u8> {
    seq![206u8, 239u8, 121u8, 19u8, 31u8, 221u8, 183u8, 76u8, 94u8, 213u8, 111u8, 19u8, 99u8, 108u8, 20u8, 205u8]
}

#[verifier::opaque]
spec fn acc_7_119() -> Seq<u8> {
    seq![215u8, 126u8, 191u8, 72u8, 236u8, 207u8, 73u8, 77u8, 172u8, 31u8, 74u8, 12u8, 239u8, 48u8, 245u8, 78u8]
}

#[verifier::opaque]
spec fn acc_7_120() -> Seq<u8> {
    seq![215u8, 126u8, 191u8, 72u8, 236u8, 207u8, 73u8, 77u8, 172u8, 31u8, 74u8, 12u8, 239u8, 48u8, 245u8, 78u8]
}

#[verifier::opaque]
spec fn acc_7_121() -> Seq<u8> {
    seq![189u8, 59u8, 165u8, 39u8, 33u8, 132u8, 177u8, 74u8, 100u8, 52u8, 221u8, 112u8, 223u8, 66u8, 112u8, 65u8]
}

#[verifier::opaque]
spec fn acc_7_122() -> Seq<u8> {
    seq![189u8, 59u8, 165u8, 39u8, 33u8, 132u8, 177u8, 74u8, 100u8, 52u8, 221u8, 112u8, 223u8, 66u8, 112u8, 65u8]
}

#[verifier::opaque]
spec fn acc_7_123() -> Seq<u8> {
    seq![189u8, 59u8, 165u8, 39u8, 33u8, 132u8, 177u8, 74u8, 100u8, 52u8, 221u8, 112u8, 223u8, 66u8, 112u8, 65u8]
}

#[verifier::opaque]
spec fn acc_7_124() -> Seq<u8> {
    seq![237u8, 16u8, 119u8, 95u8, 74u8, 218u8, 115u8, 117u8, 36u8, 106u8, 100u8, 148u8, 92u8, 211u8, 91u8, 61u8]
}

#[verifier::opaque]
spec fn acc_7_125() -> Seq<u8> {
    seq![237u8, 16u8, 119u8, 95u8, 74u8, 218u8, 115u8, 117u8, 36u8, 106u8, 100u8, 148u8, 92u8, 211u8, 91u8, 61u8]
}

#[verifier::opaque]
spec fn acc_7_126() -> Seq<u8> {
    seq![237u8, 16u8, 119u8, 95u8, 74u8, 218u8, 115u8, 117u8, 36u8, 106u8, 100u8, 148u8, 92u8, 211u8, 91u8, 61u8]
}

#[verifier::opaque]
spec fn acc_7_127() -> Seq<u8> {
    seq![237u8, 16u8, 119u8, 95u8, 74u8, 218u8, 115u8, 117u8, 36u8, 106u8, 100u8, 148u8, 92u8, 211u8, 91u8, 61u8]
}

#[verifier::opaque]
spec fn acc_7_128() -> Seq<u8> {
    seq![237u8, 16u8, 119u8, 95u8, 74u8, 218u8, 115u8, 117u8, 36u8, 106u8, 100u8, 148u8, 92u8, 211u8, 91u8, 61u8]
}

proof fn lemma_acc_7_0()
    ensures
        shift_add_mul(alpha_spec(), alpha_pow_7(), 0) == acc_7_0(),
{
    reveal(acc_7_0);
    assert(shift_add_mul(alpha_spec(), alpha_pow_7(), 0) =~= acc_7_0());
}

proof fn lemma_acc_7_1()
    ensures
        shift_add_mul(alpha_spec(), alpha_pow_7(), 1) == acc_7_1(),
{
    lemma_acc_7_0();
    lemma_alpha_x_0();
    lemma_alpha_byte_facts();
    reveal(bytes_p_7_1);
    reveal(alpha_pow_7);
    reveal(acc_7_0);
    reveal(acc_7_1);
    reveal(alpha_x_0);
    assert(bits_of_bytes(alpha_pow_7())[0] == bit_of(188u8, 0));
    assert(shift_add_mul(alpha_spec(), alpha_pow_7(), 1) =~= acc_7_1());
}

proof fn lemma_acc_7_2()
    ensures
        shift_add_mul(alpha_spec(), alpha_pow_7(), 2) == acc_7_2(),
{
    lemma_acc_7_1();
    lemma_alpha_x_1();
    lemma_alpha_byte_facts();
    reveal(bytes_p_7_2);
    reveal(alpha_pow_7);
    reveal(acc_7_1);
    reveal(acc_7_2);
    reveal(alpha_x_1);
    assert(bits_of_bytes(alpha_pow_7())[1] == bit_of(188u8, 1));
    assert(shift_add_mul(alpha_spec(), alpha_pow_7(), 2) =~= acc_7_2());
}

proof fn lemma_acc_7_3()
    ensures
        shift_add_mul(alpha_spec(), alpha_pow_7(), 3) == acc_7_3(),
{
    lemma_acc_7_2();
    lemma_alpha_x_2();
    lemma_alpha_byte_facts();
    reveal(bytes_p_7_3);
    reveal(alpha_pow_7);
    reveal(acc_7_2);
    reveal(acc_7_3);
    reveal(alpha_x_2);
    assert(bits_of_bytes(alpha_pow_7())[2] == bit_of(188u8, 2));
    assert(shift_add_mul(alpha_spec(), alpha_pow_7(), 3) =~= acc_7_3());
}

proof fn lemma_acc_7_4()
    ensures
        shift_add_mul(alpha_spec(), alpha_pow_7(), 4) == acc_7_4(),
{
    lemma_acc_7_3();
    lemma_alpha_x_3();
    lemma_alpha_byte_facts();
    reveal(bytes_p_7_4);
    reveal(alpha_pow_7);
    reveal(acc_7_3);
    reveal(acc_7_4);
    reveal(alpha_x_3);
    assert(bits_of_bytes(alpha_pow_7())[3] == bit_of(188u8, 3));
    assert(shift_add_mul(alpha_spec(), alpha_pow_7(), 4) =~= acc_7_4());
}

proof fn lemma_acc_7_5()
    ensures
        shift_add_mul(alpha_spec(), alpha_pow_7(), 5) == acc_7_5(),
{
    lemma_acc_7_4();
    lemma_alpha_x_4();
    lemma_alpha_byte_facts();
    reveal(bytes_p_7_5);
    reveal(alpha_pow_7);
    reveal(acc_7_4);
    reveal(acc_7_5);
    reveal(alpha_x_4);
    assert(bits_of_bytes(alpha_pow_7())[4] == bit_of(188u8, 4));
    assert(shift_add_mul(alpha_spec(), alpha_pow_7(), 5) =~= acc_7_5());
}

proof fn lemma_acc_7_6()
    ensures
        shift_add_mul(alpha_spec(), alpha_pow_7(), 6) == acc_7_6(),
{
    lemma_acc_7_5();
    lemma_alpha_x_5();
    lemma_alpha_byte_facts();
    reveal(bytes_p_7_6);
    reveal(alpha_pow_7);
    reveal(acc_7_5);
    reveal(acc_7_6);
    reveal(alpha_x_5);
    assert(bits_of_bytes(alpha_pow_7())[5] == bit_of(188u8, 5));
    assert(shift_add_mul(alpha_spec(), alpha_pow_7(), 6) =~= acc_7_6());
}

proof fn lemma_acc_7_7()
    ensures
        shift_add_mul(alpha_spec(), alpha_pow_7(), 7) == acc_7_7(),
{
    lemma_acc_7_6();
    lemma_alpha_x_6();
    lemma_alpha_byte_facts();
    reveal(bytes_p_7_7);
    reveal(alpha_pow_7);
    reveal(acc_7_6);
    reveal(acc_7_7);
    reveal(alpha_x_6);
    assert(bits_of_bytes(alpha_pow_7())[6] == bit_of(188u8, 6));
    assert(shift_add_mul(alpha_spec(), alpha_pow_7(), 7) =~= acc_7_7());
}

proof fn lemma_acc_7_8()
    ensures
        shift_add_mul(alpha_spec(), alpha_pow_7(), 8) == acc_7_8(),
{
    lemma_acc_7_7();
    lemma_alpha_x_7();
    lemma_alpha_byte_facts();
    reveal(bytes_p_7_8);
    reveal(alpha_pow_7);
    reveal(acc_7_7);
    reveal(acc_7_8);
    reveal(alpha_x_7);
    assert(bits_of_bytes(alpha_pow_7())[7] == bit_of(188u8, 7));
    assert(shift_add_mul(alpha_spec(), alpha_pow_7(), 8) =~= acc_7_8());
}

proof fn lemma_acc_7_9()
    ensures
        shift_add_mul(alpha_spec(), alpha_pow_7(), 9) == acc_7_9(),
{
    lemma_acc_7_8();
    lemma_alpha_x_8();
    lemma_alpha_byte_facts();
    reveal(bytes_p_7_9);
    reveal(alpha_pow_7);
    reveal(acc_7_8);
    reveal(acc_7_9);
    reveal(alpha_x_8);
    assert(bits_of_bytes(alpha_pow_7())[8] == bit_of(249u8, 0));
    assert(shift_add_mul(alpha_spec(), alpha_pow_7(), 9) =~= acc_7_9());
}

proof fn lemma_acc_7_10()
    ensures
        shift_add_mul(alpha_spec(), alpha_pow_7(), 10) == acc_7_10(),
{
    lemma_acc_7_9();
    lemma_alpha_x_9();
    lemma_alpha_byte_facts();
    reveal(bytes_p_7_10);
    reveal(alpha_pow_7);
    reveal(acc_7_9);
    reveal(acc_7_10);
    reveal(alpha_x_9);
    assert(bits_of_bytes(alpha_pow_7())[9] == bit_of(249u8, 1));
    assert(shift_add_mul(alpha_spec(), alpha_pow_7(), 10) =~= acc_7_10());
}

proof fn lemma_acc_7_11()
    ensures
        shift_add_mul(alpha_spec(), alpha_pow_7(), 11) == acc_7_11(),
{
    lemma_acc_7_10();
    lemma_alpha_x_10();
    lemma_alpha_byte_facts();
    reveal(bytes_p_7_11);
    reveal(alpha_pow_7);
    reveal(acc_7_10);
    reveal(acc_7_11);
    reveal(alpha_x_10);
    assert(bits_of_bytes(alpha_pow_7())[10] == bit_of(249u8, 2));
    assert(shift_add_mul(alpha_spec(), alpha_pow_7(), 11) =~= acc_7_11());
}

proof fn lemma_acc_7_12()
    ensures
        shift_add_mul(alpha_spec(), alpha_pow_7(), 12) == acc_7_12(),
{
    lemma_acc_7_11();
    lemma_alpha_x_11();
    lemma_alpha_byte_facts();
    reveal(bytes_p_7_12);
    reveal(alpha_pow_7);
    reveal(acc_7_11);
    reveal(acc_7_12);
    reveal(alpha_x_11);
    assert(bits_of_bytes(alpha_pow_7())[11] == bit_of(249u8, 3));
    assert(shift_add_mul(alpha_spec(), alpha_pow_7(), 12) =~= acc_7_12());
}

proof fn lemma_acc_7_13()
    ensures
        shift_add_mul(alpha_spec(), alpha_pow_7(), 13) == acc_7_13(),
{
    lemma_acc_7_12();
    lemma_alpha_x_12();
    lemma_alpha_byte_facts();
    reveal(bytes_p_7_13);
    reveal(alpha_pow_7);
    reveal(acc_7_12);
    reveal(acc_7_13);
    reveal(alpha_x_12);
    assert(bits_of_bytes(alpha_pow_7())[12] == bit_of(249u8, 4));
    assert(shift_add_mul(alpha_spec(), alpha_pow_7(), 13) =~= acc_7_13());
}

proof fn lemma_acc_7_14()
    ensures
        shift_add_mul(alpha_spec(), alpha_pow_7(), 14) == acc_7_14(),
{
    lemma_acc_7_13();
    lemma_alpha_x_13();
    lemma_alpha_byte_facts();
    reveal(bytes_p_7_14);
    reveal(alpha_pow_7);
    reveal(acc_7_13);
    reveal(acc_7_14);
    reveal(alpha_x_13);
    assert(bits_of_bytes(alpha_pow_7())[13] == bit_of(249u8, 5));
    assert(shift_add_mul(alpha_spec(), alpha_pow_7(), 14) =~= acc_7_14());
}

proof fn lemma_acc_7_15()
    ensures
        shift_add_mul(alpha_spec(), alpha_pow_7(), 15) == acc_7_15(),
{
    lemma_acc_7_14();
    lemma_alpha_x_14();
    lemma_alpha_byte_facts();
    reveal(bytes_p_7_15);
    reveal(alpha_pow_7);
    reveal(acc_7_14);
    reveal(acc_7_15);
    reveal(alpha_x_14);
    assert(bits_of_bytes(alpha_pow_7())[14] == bit_of(249u8, 6));
    assert(shift_add_mul(alpha_spec(), alpha_pow_7(), 15) =~= acc_7_15());
}

proof fn lemma_acc_7_16()
    ensures
        shift_add_mul(alpha_spec(), alpha_pow_7(), 16) == acc_7_16(),
{
    lemma_acc_7_15();
    lemma_alpha_x_15();
    lemma_alpha_byte_facts();
    reveal(bytes_p_7_16);
    reveal(alpha_pow_7);
    reveal(acc_7_15);
    reveal(acc_7_16);
    reveal(alpha_x_15);
    assert(bits_of_bytes(alpha_pow_7())[15] == bit_of(249u8, 7));
    assert(shift_add_mul(alpha_spec(), alpha_pow_7(), 16) =~= acc_7_16());
}

proof fn lemma_acc_7_17()
    ensures
        shift_add_mul(alpha_spec(), alpha_pow_7(), 17) == acc_7_17(),
{
    lemma_acc_7_16();
    lemma_alpha_x_16();
    lemma_alpha_byte_facts();
    reveal(bytes_p_7_17);
    reveal(alpha_pow_7);
    reveal(acc_7_16);
    reveal(acc_7_17);
    reveal(alpha_x_16);
    assert(bits_of_bytes(alpha_pow_7())[16] == bit_of(54u8, 0));
    assert(shift_add_mul(alpha_spec(), alpha_pow_7(), 17) =~= acc_7_17());
}

proof fn lemma_acc_7_18()
    ensures
        shift_add_mul(alpha_spec(), alpha_pow_7(), 18) == acc_7_18(),
{
    lemma_acc_7_17();
    lemma_alpha_x_17();
    lemma_alpha_byte_facts();
    reveal(bytes_p_7_18);
    reveal(alpha_pow_7);
    reveal(acc_7_17);
    reveal(acc_7_18);
    reveal(alpha_x_17);
    assert(bits_of_bytes(alpha_pow_7())[17] == bit_of(54u8, 1));
    assert(shift_add_mul(alpha_spec(), alpha_pow_7(), 18) =~= acc_7_18());
}

proof fn lemma_acc_7_19()
    ensures
        shift_add_mul(alpha_spec(), alpha_pow_7(), 19) == acc_7_19(),
{
    lemma_acc_7_18();
    lemma_alpha_x_18();
    lemma_alpha_byte_facts();
    reveal(bytes_p_7_19);
    reveal(alpha_pow_7);
    reveal(acc_7_18);
    reveal(acc_7_19);
    reveal(alpha_x_18);
    assert(bits_of_bytes(alpha_pow_7())[18] == bit_of(54u8, 2));
    assert(shift_add_mul(alpha_spec(), alpha_pow_7(), 19) =~= acc_7_19());
}

proof fn lemma_acc_7_20()
    ensures
        shift_add_mul(alpha_spec(), alpha_pow_7(), 20) == acc_7_20(),
{
    lemma_acc_7_19();
    lemma_alpha_x_19();
    lemma_alpha_byte_facts();
    reveal(bytes_p_7_20);
    reveal(alpha_pow_7);
    reveal(acc_7_19);
    reveal(acc_7_20);
    reveal(alpha_x_19);
    assert(bits_of_bytes(alpha_pow_7())[19] == bit_of(54u8, 3));
    assert(shift_add_mul(alpha_spec(), alpha_pow_7(), 20) =~= acc_7_20());
}

proof fn lemma_acc_7_21()
    ensures
        shift_add_mul(alpha_spec(), alpha_pow_7(), 21) == acc_7_21(),
{
    lemma_acc_7_20();
    lemma_alpha_x_20();
    lemma_alpha_byte_facts();
    reveal(bytes_p_7_21);
    reveal(alpha_pow_7);
    reveal(acc_7_20);
    reveal(acc_7_21);
    reveal(alpha_x_20);
    assert(bits_of_bytes(alpha_pow_7())[20] == bit_of(54u8, 4));
    assert(shift_add_mul(alpha_spec(), alpha_pow_7(), 21) =~= acc_7_21());
}

proof fn lemma_acc_7_22()
    ensures
        shift_add_mul(alpha_spec(), alpha_pow_7(), 22) == acc_7_22(),
{
    lemma_acc_7_21();
    lemma_alpha_x_21();
    lemma_alpha_byte_facts();
    reveal(bytes_p_7_22);
    reveal(alpha_pow_7);
    reveal(acc_7_21);
    reveal(acc_7_22);
    reveal(alpha_x_21);
    assert(bits_of_bytes(alpha_pow_7())[21] == bit_of(54u8, 5));
    assert(shift_add_mul(alpha_spec(), alpha_pow_7(), 22) =~= acc_7_22());
}

proof fn lemma_acc_7_23()
    ensures
        shift_add_mul(alpha_spec(), alpha_pow_7(), 23) == acc_7_23(),
{
    lemma_acc_7_22();
    lemma_alpha_x_22();
    lemma_alpha_byte_facts();
    reveal(bytes_p_7_23);
    reveal(alpha_pow_7);
    reveal(acc_7_22);
    reveal(acc_7_23);
    reveal(alpha_x_22);
    assert(bits_of_bytes(alpha_pow_7())[22] == bit_of(54u8, 6));
    assert(shift_add_mul(alpha_spec(), alpha_pow_7(), 23) =~= acc_7_23());
}

proof fn lemma_acc_7_24()
    ensures
        shift_add_mul(alpha_spec(), alpha_pow_7(), 24) == acc_7_24(),
{
    lemma_acc_7_23();
    lemma_alpha_x_23();
    lemma_alpha_byte_facts();
    reveal(bytes_p_7_24);
    reveal(alpha_pow_7);
    reveal(acc_7_23);
    reveal(acc_7_24);
    reveal(alpha_x_23);
    assert(bits_of_bytes(alpha_pow_7())[23] == bit_of(54u8, 7));
    assert(shift_add_mul(alpha_spec(), alpha_pow_7(), 24) =~= acc_7_24());
}

proof fn lemma_acc_7_25()
    ensures
        shift_add_mul(alpha_spec(), alpha_pow_7(), 25) == acc_7_25(),
{
    lemma_acc_7_24();
    lemma_alpha_x_24();
    lemma_alpha_byte_facts();
    reveal(bytes_p_7_25);
    reveal(alpha_pow_7);
    reveal(acc_7_24);
    reveal(acc_7_25);
    reveal(alpha_x_24);
    assert(bits_of_bytes(alpha_pow_7())[24] == bit_of(225u8, 0));
    assert(shift_add_mul(alpha_spec(), alpha_pow_7(), 25) =~= acc_7_25());
}

proof fn lemma_acc_7_26()
    ensures
        shift_add_mul(alpha_spec(), alpha_pow_7(), 26) == acc_7_26(),
{
    lemma_acc_7_25();
    lemma_alpha_x_25();
    lemma_alpha_byte_facts();
    reveal(bytes_p_7_26);
    reveal(alpha_pow_7);
    reveal(acc_7_25);
    reveal(acc_7_26);
    reveal(alpha_x_25);
    assert(bits_of_bytes(alpha_pow_7())[25] == bit_of(225u8, 1));
    assert(shift_add_mul(alpha_spec(), alpha_pow_7(), 26) =~= acc_7_26());
}

proof fn lemma_acc_7_27()
    ensures
        shift_add_mul(alpha_spec(), alpha_pow_7(), 27) == acc_7_27(),
{
    lemma_acc_7_26();
    lemma_alpha_x_26();
    lemma_alpha_byte_facts();
    reveal(bytes_p_7_27);
    reveal(alpha_pow_7);
    reveal(acc_7_26);
    reveal(acc_7_27);
    reveal(alpha_x_26);
    assert(bits_of_bytes(alpha_pow_7())[26] == bit_of(225u8, 2));
    assert(shift_add_mul(alpha_spec(), alpha_pow_7(), 27) =~= acc_7_27());
}

proof fn lemma_acc_7_28()
    ensures
        shift_add_mul(alpha_spec(), alpha_pow_7(), 28) == acc_7_28(),
{
    lemma_acc_7_27();
    lemma_alpha_x_27();
    lemma_alpha_byte_facts();
    reveal(bytes_p_7_28);
    reveal(alpha_pow_7);
    reveal(acc_7_27);
    reveal(acc_7_28);
    reveal(alpha_x_27);
    assert(bits_of_bytes(alpha_pow_7())[27] == bit_of(225u8, 3));
    assert(shift_add_mul(alpha_spec(), alpha_pow_7(), 28) =~= acc_7_28());
}

proof fn lemma_acc_7_29()
    ensures
        shift_add_mul(alpha_spec(), alpha_pow_7(), 29) == acc_7_29(),
{
    lemma_acc_7_28();
    lemma_alpha_x_28();
    lemma_alpha_byte_facts();
    reveal(bytes_p_7_29);
    reveal(alpha_pow_7);
    reveal(acc_7_28);
    reveal(acc_7_29);
    reveal(alpha_x_28);
    assert(bits_of_bytes(alpha_pow_7())[28] == bit_of(225u8, 4));
    assert(shift_add_mul(alpha_spec(), alpha_pow_7(), 29) =~= acc_7_29());
}

proof fn lemma_acc_7_30()
    ensures
        shift_add_mul(alpha_spec(), alpha_pow_7(), 30) == acc_7_30(),
{
    lemma_acc_7_29();
    lemma_alpha_x_29();
    lemma_alpha_byte_facts();
    reveal(bytes_p_7_30);
    reveal(alpha_pow_7);
    reveal(acc_7_29);
    reveal(acc_7_30);
    reveal(alpha_x_29);
    assert(bits_of_bytes(alpha_pow_7())[29] == bit_of(225u8, 5));
    assert(shift_add_mul(alpha_spec(), alpha_pow_7(), 30) =~= acc_7_30());
}

proof fn lemma_acc_7_31()
    ensures
        shift_add_mul(alpha_spec(), alpha_pow_7(), 31) == acc_7_31(),
{
    lemma_acc_7_30();
    lemma_alpha_x_30();
    lemma_alpha_byte_facts();
    reveal(bytes_p_7_31);
    reveal(alpha_pow_7);
    reveal(acc_7_30);
    reveal(acc_7_31);
    reveal(alpha_x_30);
    assert(bits_of_bytes(alpha_pow_7())[30] == bit_of(225u8, 6));
    assert(shift_add_mul(alpha_spec(), alpha_pow_7(), 31) =~= acc_7_31());
}

proof fn lemma_acc_7_32()
    ensures
        shift_add_mul(alpha_spec(), alpha_pow_7(), 32) == acc_7_32(),
{
    lemma_acc_7_31();
    lemma_alpha_x_31();
    lemma_alpha_byte_facts();
    reveal(bytes_p_7_32);
    reveal(alpha_pow_7);
    reveal(acc_7_31);
    reveal(acc_7_32);
    reveal(alpha_x_31);
    assert(bits_of_bytes(alpha_pow_7())[31] == bit_of(225u8, 7));
    assert(shift_add_mul(alpha_spec(), alpha_pow_7(), 32) =~= acc_7_32());
}

proof fn lemma_acc_7_33()
    ensures
        shift_add_mul(alpha_spec(), alpha_pow_7(), 33) == acc_7_33(),
{
    lemma_acc_7_32();
    lemma_alpha_x_32();
    lemma_alpha_byte_facts();
    reveal(bytes_p_7_33);
    reveal(alpha_pow_7);
    reveal(acc_7_32);
    reveal(acc_7_33);
    reveal(alpha_x_32);
    assert(bits_of_bytes(alpha_pow_7())[32] == bit_of(148u8, 0));
    assert(shift_add_mul(alpha_spec(), alpha_pow_7(), 33) =~= acc_7_33());
}

proof fn lemma_acc_7_34()
    ensures
        shift_add_mul(alpha_spec(), alpha_pow_7(), 34) == acc_7_34(),
{
    lemma_acc_7_33();
    lemma_alpha_x_33();
    lemma_alpha_byte_facts();
    reveal(bytes_p_7_34);
    reveal(alpha_pow_7);
    reveal(acc_7_33);
    reveal(acc_7_34);
    reveal(alpha_x_33);
    assert(bits_of_bytes(alpha_pow_7())[33] == bit_of(148u8, 1));
    assert(shift_add_mul(alpha_spec(), alpha_pow_7(), 34) =~= acc_7_34());
}

proof fn lemma_acc_7_35()
    ensures
        shift_add_mul(alpha_spec(), alpha_pow_7(), 35) == acc_7_35(),
{
    lemma_acc_7_34();
    lemma_alpha_x_34();
    lemma_alpha_byte_facts();
    reveal(bytes_p_7_35);
    reveal(alpha_pow_7);
    reveal(acc_7_34);
    reveal(acc_7_35);
    reveal(alpha_x_34);
    assert(bits_of_bytes(alpha_pow_7())[34] == bit_of(148u8, 2));
    assert(shift_add_mul(alpha_spec(), alpha_pow_7(), 35) =~= acc_7_35());
}

proof fn lemma_acc_7_36()
    ensures
        shift_add_mul(alpha_spec(), alpha_pow_7(), 36) == acc_7_36(),
{
    lemma_acc_7_35();
    lemma_alpha_x_35();
    lemma_alpha_byte_facts();
    reveal(bytes_p_7_36);
    reveal(alpha_pow_7);
    reveal(acc_7_35);
    reveal(acc_7_36);
    reveal(alpha_x_35);
    assert(bits_of_bytes(alpha_pow_7())[35] == bit_of(148u8, 3));
    assert(shift_add_mul(alpha_spec(), alpha_pow_7(), 36) =~= acc_7_36());
}

proof fn lemma_acc_7_37()
    ensures
        shift_add_mul(alpha_spec(), alpha_pow_7(), 37) == acc_7_37(),
{
    lemma_acc_7_36();
    lemma_alpha_x_36();
    lemma_alpha_byte_facts();
    reveal(bytes_p_7_37);
    reveal(alpha_pow_7);
    reveal(acc_7_36);
    reveal(acc_7_37);
    reveal(alpha_x_36);
    assert(bits_of_bytes(alpha_pow_7())[36] == bit_of(148u8, 4));
    assert(shift_add_mul(alpha_spec(), alpha_pow_7(), 37) =~= acc_7_37());
}

proof fn lemma_acc_7_38()
    ensures
        shift_add_mul(alpha_spec(), alpha_pow_7(), 38) == acc_7_38(),
{
    lemma_acc_7_37();
    lemma_alpha_x_37();
    lemma_alpha_byte_facts();
    reveal(bytes_p_7_38);
    reveal(alpha_pow_7);
    reveal(acc_7_37);
    reveal(acc_7_38);
    reveal(alpha_x_37);
    assert(bits_of_bytes(alpha_pow_7())[37] == bit_of(148u8, 5));
    assert(shift_add_mul(alpha_spec(), alpha_pow_7(), 38) =~= acc_7_38());
}

proof fn lemma_acc_7_39()
    ensures
        shift_add_mul(alpha_spec(), alpha_pow_7(), 39) == acc_7_39(),
{
    lemma_acc_7_38();
    lemma_alpha_x_38();
    lemma_alpha_byte_facts();
    reveal(bytes_p_7_39);
    reveal(alpha_pow_7);
    reveal(acc_7_38);
    reveal(acc_7_39);
    reveal(alpha_x_38);
    assert(bits_of_bytes(alpha_pow_7())[38] == bit_of(148u8, 6));
    assert(shift_add_mul(alpha_spec(), alpha_pow_7(), 39) =~= acc_7_39());
}

proof fn lemma_acc_7_40()
    ensures
        shift_add_mul(alpha_spec(), alpha_pow_7(), 40) == acc_7_40(),
{
    lemma_acc_7_39();
    lemma_alpha_x_39();
    lemma_alpha_byte_facts();
    reveal(bytes_p_7_40);
    reveal(alpha_pow_7);
    reveal(acc_7_39);
    reveal(acc_7_40);
    reveal(alpha_x_39);
    assert(bits_of_bytes(alpha_pow_7())[39] == bit_of(148u8, 7));
    assert(shift_add_mul(alpha_spec(), alpha_pow_7(), 40) =~= acc_7_40());
}

proof fn lemma_acc_7_41()
    ensures
        shift_add_mul(alpha_spec(), alpha_pow_7(), 41) == acc_7_41(),
{
    lemma_acc_7_40();
    lemma_alpha_x_40();
    lemma_alpha_byte_facts();
    reveal(bytes_p_7_41);
    reveal(alpha_pow_7);
    reveal(acc_7_40);
    reveal(acc_7_41);
    reveal(alpha_x_40);
    assert(bits_of_bytes(alpha_pow_7())[40] == bit_of(142u8, 0));
    assert(shift_add_mul(alpha_spec(), alpha_pow_7(), 41) =~= acc_7_41());
}

proof fn lemma_acc_7_42()
    ensures
        shift_add_mul(alpha_spec(), alpha_pow_7(), 42) == acc_7_42(),
{
    lemma_acc_7_41();
    lemma_alpha_x_41();
    lemma_alpha_byte_facts();
    reveal(bytes_p_7_42);
    reveal(alpha_pow_7);
    reveal(acc_7_41);
    reveal(acc_7_42);
    reveal(alpha_x_41);
    assert(bits_of_bytes(alpha_pow_7())[41] == bit_of(142u8, 1));
    assert(shift_add_mul(alpha_spec(), alpha_pow_7(), 42) =~= acc_7_42());
}

proof fn lemma_acc_7_43()
    ensures
        shift_add_mul(alpha_spec(), alpha_pow_7(), 43) == acc_7_43(),
{
    lemma_acc_7_42();
    lemma_alpha_x_42();
    lemma_alpha_byte_facts();
    reveal(bytes_p_7_43);
    reveal(alpha_pow_7);
    reveal(acc_7_42);
    reveal(acc_7_43);
    reveal(alpha_x_42);
    assert(bits_of_bytes(alpha_pow_7())[42] == bit_of(142u8, 2));
    assert(shift_add_mul(alpha_spec(), alpha_pow_7(), 43) =~= acc_7_43());
}

proof fn lemma_acc_7_44()
    ensures
        shift_add_mul(alpha_spec(), alpha_pow_7(), 44) == acc_7_44(),
{
    lemma_acc_7_43();
    lemma_alpha_x_43();
    lemma_alpha_byte_facts();
    reveal(bytes_p_7_44);
    reveal(alpha_pow_7);
    reveal(acc_7_43);
    reveal(acc_7_44);
    reveal(alpha_x_43);
    assert(bits_of_bytes(alpha_pow_7())[43] == bit_of(142u8, 3));
    assert(shift_add_mul(alpha_spec(), alpha_pow_7(), 44) =~= acc_7_44());
}

proof fn lemma_acc_7_45()
    ensures
        shift_add_mul(alpha_spec(), alpha_pow_7(), 45) == acc_7_45(),
{
    lemma_acc_7_44();
    lemma_alpha_x_44();
    lemma_alpha_byte_facts();
    reveal(bytes_p_7_45);
    reveal(alpha_pow_7);
    reveal(acc_7_44);
    reveal(acc_7_45);
    reveal(alpha_x_44);
    assert(bits_of_bytes(alpha_pow_7())[44] == bit_of(142u8, 4));
    assert(shift_add_mul(alpha_spec(), alpha_pow_7(), 45) =~= acc_7_45());
}

proof fn lemma_acc_7_46()
    ensures
        shift_add_mul(alpha_spec(), alpha_pow_7(), 46) == acc_7_46(),
{
    lemma_acc_7_45();
    lemma_alpha_x_45();
    lemma_alpha_byte_facts();
    reveal(bytes_p_7_46);
    reveal(alpha_pow_7);
    reveal(acc_7_45);
    reveal(acc_7_46);
    reveal(alpha_x_45);
    assert(bits_of_bytes(alpha_pow_7())[45] == bit_of(142u8, 5));
    assert(shift_add_mul(alpha_spec(), alpha_pow_7(), 46) =~= acc_7_46());
}

proof fn lemma_acc_7_47()
    ensures
        shift_add_mul(alpha_spec(), alpha_pow_7(), 47) == acc_7_47(),
{
    lemma_acc_7_46();
    lemma_alpha_x_46();
    lemma_alpha_byte_facts();
    reveal(bytes_p_7_47);
    reveal(alpha_pow_7);
    reveal(acc_7_46);
    reveal(acc_7_47);
    reveal(alpha_x_46);
    assert(bits_of_bytes(alpha_pow_7())[46] == bit_of(142u8, 6));
    assert(shift_add_mul(alpha_spec(), alpha_pow_7(), 47) =~= acc_7_47());
}

proof fn lemma_acc_7_48()
    ensures
        shift_add_mul(alpha_spec(), alpha_pow_7(), 48) == acc_7_48(),
{
    lemma_acc_7_47();
    lemma_alpha_x_47();
    lemma_alpha_byte_facts();
    reveal(bytes_p_7_48);
    reveal(alpha_pow_7);
    reveal(acc_7_47);
    reveal(acc_7_48);
    reveal(alpha_x_47);
    assert(bits_of_bytes(alpha_pow_7())[47] == bit_of(142u8, 7));
    assert(shift_add_mul(alpha_spec(), alpha_pow_7(), 48) =~= acc_7_48());
}

proof fn lemma_acc_7_49()
    ensures
        shift_add_mul(alpha_spec(), alpha_pow_7(), 49) == acc_7_49(),
{
    lemma_acc_7_48();
    lemma_alpha_x_48();
    lemma_alpha_byte_facts();
    reveal(bytes_p_7_49);
    reveal(alpha_pow_7);
    reveal(acc_7_48);
    reveal(acc_7_49);
    reveal(alpha_x_48);
    assert(bits_of_bytes(alpha_pow_7())[48] == bit_of(122u8, 0));
    assert(shift_add_mul(alpha_spec(), alpha_pow_7(), 49) =~= acc_7_49());
}

proof fn lemma_acc_7_50()
    ensures
        shift_add_mul(alpha_spec(), alpha_pow_7(), 50) == acc_7_50(),
{
    lemma_acc_7_49();
    lemma_alpha_x_49();
    lemma_alpha_byte_facts();
    reveal(bytes_p_7_50);
    reveal(alpha_pow_7);
    reveal(acc_7_49);
    reveal(acc_7_50);
    reveal(alpha_x_49);
    assert(bits_of_bytes(alpha_pow_7())[49] == bit_of(122u8, 1));
    assert(shift_add_mul(alpha_spec(), alpha_pow_7(), 50) =~= acc_7_50());
}

proof fn lemma_acc_7_51()
    ensures
        shift_add_mul(alpha_spec(), alpha_pow_7(), 51) == acc_7_51(),
{
    lemma_acc_7_50();
    lemma_alpha_x_50();
    lemma_alpha_byte_facts();
    reveal(bytes_p_7_51);
    reveal(alpha_pow_7);
    reveal(acc_7_50);
    reveal(acc_7_51);
    reveal(alpha_x_50);
    assert(bits_of_bytes(alpha_pow_7())[50] == bit_of(122u8, 2));
    assert(shift_add_mul(alpha_spec(), alpha_pow_7(), 51) =~= acc_7_51());
}

proof fn lemma_acc_7_52()
    ensures
        shift_add_mul(alpha_spec(), alpha_pow_7(), 52) == acc_7_52(),
{
    lemma_acc_7_51();
    lemma_alpha_x_51();
    lemma_alpha_byte_facts();
    reveal(bytes_p_7_52);
    reveal(alpha_pow_7);
    reveal(acc_7_51);
    reveal(acc_7_52);
    reveal(alpha_x_51);
    assert(bits_of_bytes(alpha_pow_7())[51] == bit_of(122u8, 3));
    assert(shift_add_mul(alpha_spec(), alpha_pow_7(), 52) =~= acc_7_52());
}

proof fn lemma_acc_7_53()
    ensures
        shift_add_mul(alpha_spec(), alpha_pow_7(), 53) == acc_7_53(),
{
    lemma_acc_7_52();
    lemma_alpha_x_52();
    lemma_alpha_byte_facts();
    reveal(bytes_p_7_53);
    reveal(alpha_pow_7);
    reveal(acc_7_52);
    reveal(acc_7_53);
    reveal(alpha_x_52);
    assert(bits_of_bytes(alpha_pow_7())[52] == bit_of(122u8, 4));
    assert(shift_add_mul(alpha_spec(), alpha_pow_7(), 53) =~= acc_7_53());
}

proof fn lemma_acc_7_54()
    ensures
        shift_add_mul(alpha_spec(), alpha_pow_7(), 54) == acc_7_54(),
{
    lemma_acc_7_53();
    lemma_alpha_x_53();
    lemma_alpha_byte_facts();
    reveal(bytes_p_7_54);
    reveal(alpha_pow_7);
    reveal(acc_7_53);
    reveal(acc_7_54);
    reveal(alpha_x_53);
    assert(bits_of_bytes(alpha_pow_7())[53] == bit_of(122u8, 5));
    assert(shift_add_mul(alpha_spec(), alpha_pow_7(), 54) =~= acc_7_54());
}

proof fn lemma_acc_7_55()
    ensures
        shift_add_mul(alpha_spec(), alpha_pow_7(), 55) == acc_7_55(),
{
    lemma_acc_7_54();
    lemma_alpha_x_54();
    lemma_alpha_byte_facts();
    reveal(bytes_p_7_55);
    reveal(alpha_pow_7);
    reveal(acc_7_54);
    reveal(acc_7_55);
    reveal(alpha_x_54);
    assert(bits_of_bytes(alpha_pow_7())[54] == bit_of(122u8, 6));
    assert(shift_add_mul(alpha_spec(), alpha_pow_7(), 55) =~= acc_7_55());
}

proof fn lemma_acc_7_56()
    ensures
        shift_add_mul(alpha_spec(), alpha_pow_7(), 56) == acc_7_56(),
{
    lemma_acc_7_55();
    lemma_alpha_x_55();
    lemma_alpha_byte_facts();
    reveal(bytes_p_7_56);
    reveal(alpha_pow_7);
    reveal(acc_7_55);
    reveal(acc_7_56);
    reveal(alpha_x_55);
    assert(bits_of_bytes(alpha_pow_7())[55] == bit_of(122u8, 7));
    assert(shift_add_mul(alpha_spec(), alpha_pow_7(), 56) =~= acc_7_56());
}

proof fn lemma_acc_7_57()
    ensures
        shift_add_mul(alpha_spec(), alpha_pow_7(), 57) == acc_7_57(),
{
    lemma_acc_7_56();
    lemma_alpha_x_56();
    lemma_alpha_byte_facts();
    reveal(bytes_p_7_57);
    reveal(alpha_pow_7);
    reveal(acc_7_56);
    reveal(acc_7_57);
    reveal(alpha_x_56);
    assert(bits_of_bytes(alpha_pow_7())[56] == bit_of(122u8, 0));
    assert(shift_add_mul(alpha_spec(), alpha_pow_7(), 57) =~= acc_7_57());
}

proof fn lemma_acc_7_58()
    ensures
        shift_add_mul(alpha_spec(), alpha_pow_7(), 58) == acc_7_58(),
{
    lemma_acc_7_57();
    lemma_alpha_x_57();
    lemma_alpha_byte_facts();
    reveal(bytes_p_7_58);
    reveal(alpha_pow_7);
    reveal(acc_7_57);
    reveal(acc_7_58);
    reveal(alpha_x_57);
    assert(bits_of_bytes(alpha_pow_7())[57] == bit_of(122u8, 1));
    assert(shift_add_mul(alpha_spec(), alpha_pow_7(), 58) =~= acc_7_58());
}

proof fn lemma_acc_7_59()
    ensures
        shift_add_mul(alpha_spec(), alpha_pow_7(), 59) == acc_7_59(),
{
    lemma_acc_7_58();
    lemma_alpha_x_58();
    lemma_alpha_byte_facts();
    reveal(bytes_p_7_59);
    reveal(alpha_pow_7);
    reveal(acc_7_58);
    reveal(acc_7_59);
    reveal(alpha_x_58);
    assert(bits_of_bytes(alpha_pow_7())[58] == bit_of(122u8, 2));
    assert(shift_add_mul(alpha_spec(), alpha_pow_7(), 59) =~= acc_7_59());
}

proof fn lemma_acc_7_60()
    ensures
        shift_add_mul(alpha_spec(), alpha_pow_7(), 60) == acc_7_60(),
{
    lemma_acc_7_59();
    lemma_alpha_x_59();
    lemma_alpha_byte_facts();
    reveal(bytes_p_7_60);
    reveal(alpha_pow_7);
    reveal(acc_7_59);
    reveal(acc_7_60);
    reveal(alpha_x_59);
    assert(bits_of_bytes(alpha_pow_7())[59] == bit_of(122u8, 3));
    assert(shift_add_mul(alpha_spec(), alpha_pow_7(), 60) =~= acc_7_60());
}

proof fn lemma_acc_7_61()
    ensures
        shift_add_mul(alpha_spec(), alpha_pow_7(), 61) == acc_7_61(),
{
    lemma_acc_7_60();
    lemma_alpha_x_60();
    lemma_alpha_byte_facts();
    reveal(bytes_p_7_61);
    reveal(alpha_pow_7);
    reveal(acc_7_60);
    reveal(acc_7_61);
    reveal(alpha_x_60);
    assert(bits_of_bytes(alpha_pow_7())[60] == bit_of(122u8, 4));
    assert(shift_add_mul(alpha_spec(), alpha_pow_7(), 61) =~= acc_7_61());
}

proof fn lemma_acc_7_62()
    ensures
        shift_add_mul(alpha_spec(), alpha_pow_7(), 62) == acc_7_62(),
{
    lemma_acc_7_61();
    lemma_alpha_x_61();
    lemma_alpha_byte_facts();
    reveal(bytes_p_7_62);
    reveal(alpha_pow_7);
    reveal(acc_7_61);
    reveal(acc_7_62);
    reveal(alpha_x_61);
    assert(bits_of_bytes(alpha_pow_7())[61] == bit_of(122u8, 5));
    assert(shift_add_mul(alpha_spec(), alpha_pow_7(), 62) =~= acc_7_62());
}

proof fn lemma_acc_7_63()
    ensures
        shift_add_mul(alpha_spec(), alpha_pow_7(), 63) == acc_7_63(),
{
    lemma_acc_7_62();
    lemma_alpha_x_62();
    lemma_alpha_byte_facts();
    reveal(bytes_p_7_63);
    reveal(alpha_pow_7);
    reveal(acc_7_62);
    reveal(acc_7_63);
    reveal(alpha_x_62);
    assert(bits_of_bytes(alpha_pow_7())[62] == bit_of(122u8, 6));
    assert(shift_add_mul(alpha_spec(), alpha_pow_7(), 63) =~= acc_7_63());
}

proof fn lemma_acc_7_64()
    ensures
        shift_add_mul(alpha_spec(), alpha_pow_7(), 64) == acc_7_64(),
{
    lemma_acc_7_63();
    lemma_alpha_x_63();
    lemma_alpha_byte_facts();
    reveal(bytes_p_7_64);
    reveal(alpha_pow_7);
    reveal(acc_7_63);
    reveal(acc_7_64);
    reveal(alpha_x_63);
    assert(bits_of_bytes(alpha_pow_7())[63] == bit_of(122u8, 7));
    assert(shift_add_mul(alpha_spec(), alpha_pow_7(), 64) =~= acc_7_64());
}

proof fn lemma_acc_7_65()
    ensures
        shift_add_mul(alpha_spec(), alpha_pow_7(), 65) == acc_7_65(),
{
    lemma_acc_7_64();
    lemma_alpha_x_64();
    lemma_alpha_byte_facts();
    reveal(bytes_p_7_65);
    reveal(alpha_pow_7);
    reveal(acc_7_64);
    reveal(acc_7_65);
    reveal(alpha_x_64);
    assert(bits_of_bytes(alpha_pow_7())[64] == bit_of(224u8, 0));
    assert(shift_add_mul(alpha_spec(), alpha_pow_7(), 65) =~= acc_7_65());
}

proof fn lemma_acc_7_66()
    ensures
        shift_add_mul(alpha_spec(), alpha_pow_7(), 66) == acc_7_66(),
{
    lemma_acc_7_65();
    lemma_alpha_x_65();
    lemma_alpha_byte_facts();
    reveal(bytes_p_7_66);
    reveal(alpha_pow_7);
    reveal(acc_7_65);
    reveal(acc_7_66);
    reveal(alpha_x_65);
    assert(bits_of_bytes(alpha_pow_7())[65] == bit_of(224u8, 1));
    assert(shift_add_mul(alpha_spec(), alpha_pow_7(), 66) =~= acc_7_66());
}

proof fn lemma_acc_7_67()
    ensures
        shift_add_mul(alpha_spec(), alpha_pow_7(), 67) == acc_7_67(),
{
    lemma_acc_7_66();
    lemma_alpha_x_66();
    lemma_alpha_byte_facts();
    reveal(bytes_p_7_67);
    reveal(alpha_pow_7);
    reveal(acc_7_66);
    reveal(acc_7_67);
    reveal(alpha_x_66);
    assert(bits_of_bytes(alpha_pow_7())[66] == bit_of(224u8, 2));
    assert(shift_add_mul(alpha_spec(), alpha_pow_7(), 67) =~= acc_7_67());
}

proof fn lemma_acc_7_68()
    ensures
        shift_add_mul(alpha_spec(), alpha_pow_7(), 68) == acc_7_68(),
{
    lemma_acc_7_67();
    lemma_alpha_x_67();
    lemma_alpha_byte_facts();
    reveal(bytes_p_7_68);
    reveal(alpha_pow_7);
    reveal(acc_7_67);
    reveal(acc_7_68);
    reveal(alpha_x_67);
    assert(bits_of_bytes(alpha_pow_7())[67] == bit_of(224u8, 3));
    assert(shift_add_mul(alpha_spec(), alpha_pow_7(), 68) =~= acc_7_68());
}

proof fn lemma_acc_7_69()
    ensures
        shift_add_mul(alpha_spec(), alpha_pow_7(), 69) == acc_7_69(),
{
    lemma_acc_7_68();
    lemma_alpha_x_68();
    lemma_alpha_byte_facts();
    reveal(bytes_p_7_69);
    reveal(alpha_pow_7);
    reveal(acc_7_68);
    reveal(acc_7_69);
    reveal(alpha_x_68);
    assert(bits_of_bytes(alpha_pow_7())[68] == bit_of(224u8, 4));
    assert(shift_add_mul(alpha_spec(), alpha_pow_7(), 69) =~= acc_7_69());
}

proof fn lemma_acc_7_70()
    ensures
        shift_add_mul(alpha_spec(), alpha_pow_7(), 70) == acc_7_70(),
{
    lemma_acc_7_69();
    lemma_alpha_x_69();
    lemma_alpha_byte_facts();
    reveal(bytes_p_7_70);
    reveal(alpha_pow_7);
    reveal(acc_7_69);
    reveal(acc_7_70);
    reveal(alpha_x_69);
    assert(bits_of_bytes(alpha_pow_7())[69] == bit_of(224u8, 5));
    assert(shift_add_mul(alpha_spec(), alpha_pow_7(), 70) =~= acc_7_70());
}

proof fn lemma_acc_7_71()
    ensures
        shift_add_mul(alpha_spec(), alpha_pow_7(), 71) == acc_7_71(),
{
    lemma_acc_7_70();
    lemma_alpha_x_70();
    lemma_alpha_byte_facts();
    reveal(bytes_p_7_71);
    reveal(alpha_pow_7);
    reveal(acc_7_70);
    reveal(acc_7_71);
    reveal(alpha_x_70);
    assert(bits_of_bytes(alpha_pow_7())[70] == bit_of(224u8, 6));
    assert(shift_add_mul(alpha_spec(), alpha_pow_7(), 71) =~= acc_7_71());
}

proof fn lemma_acc_7_72()
    ensures
        shift_add_mul(alpha_spec(), alpha_pow_7(), 72) == acc_7_72(),
{
    lemma_acc_7_71();
    lemma_alpha_x_71();
    lemma_alpha_byte_facts();
    reveal(bytes_p_7_72);
    reveal(alpha_pow_7);
    reveal(acc_7_71);
    reveal(acc_7_72);
    reveal(alpha_x_71);
    assert(bits_of_bytes(alpha_pow_7())[71] == bit_of(224u8, 7));
    assert(shift_add_mul(alpha_spec(), alpha_pow_7(), 72) =~= acc_7_72());
}

proof fn lemma_acc_7_73()
    ensures
        shift_add_mul(alpha_spec(), alpha_pow_7(), 73) == acc_7_73(),
{
    lemma_acc_7_72();
    lemma_alpha_x_72();
    lemma_alpha_byte_facts();
    reveal(bytes_p_7_73);
    reveal(alpha_pow_7);
    reveal(acc_7_72);
    reveal(acc_7_73);
    reveal(alpha_x_72);
    assert(bits_of_bytes(alpha_pow_7())[72] == bit_of(143u8, 0));
    assert(shift_add_mul(alpha_spec(), alpha_pow_7(), 73) =~= acc_7_73());
}

proof fn lemma_acc_7_74()
    ensures
        shift_add_mul(alpha_spec(), alpha_pow_7(), 74) == acc_7_74(),
{
    lemma_acc_7_73();
    lemma_alpha_x_73();
    lemma_alpha_byte_facts();
    reveal(bytes_p_7_74);
    reveal(alpha_pow_7);
    reveal(acc_7_73);
    reveal(acc_7_74);
    reveal(alpha_x_73);
    assert(bits_of_bytes(alpha_pow_7())[73] == bit_of(143u8, 1));
    assert(shift_add_mul(alpha_spec(), alpha_pow_7(), 74) =~= acc_7_74());
}

proof fn lemma_acc_7_75()
    ensures
        shift_add_mul(alpha_spec(), alpha_pow_7(), 75) == acc_7_75(),
{
    lemma_acc_7_74();
    lemma_alpha_x_74();
    lemma_alpha_byte_facts();
    reveal(bytes_p_7_75);
    reveal(alpha_pow_7);
    reveal(acc_7_74);
    reveal(acc_7_75);
    reveal(alpha_x_74);
    assert(bits_of_bytes(alpha_pow_7())[74] == bit_of(143u8, 2));
    assert(shift_add_mul(alpha_spec(), alpha_pow_7(), 75) =~= acc_7_75());
}

proof fn lemma_acc_7_76()
    ensures
        shift_add_mul(alpha_spec(), alpha_pow_7(), 76) == acc_7_76(),
{
    lemma_acc_7_75();
    lemma_alpha_x_75();
    lemma_alpha_byte_facts();
    reveal(bytes_p_7_76);
    reveal(alpha_pow_7);
    reveal(acc_7_75);
    reveal(acc_7_76);
    reveal(alpha_x_75);
    assert(bits_of_bytes(alpha_pow_7())[75] == bit_of(143u8, 3));
    assert(shift_add_mul(alpha_spec(), alpha_pow_7(), 76) =~= acc_7_76());
}

proof fn lemma_acc_7_77()
    ensures
        shift_add_mul(alpha_spec(), alpha_pow_7(), 77) == acc_7_77(),
{
    lemma_acc_7_76();
    lemma_alpha_x_76();
    lemma_alpha_byte_facts();
    reveal(bytes_p_7_77);
    reveal(alpha_pow_7);
    reveal(acc_7_76);
    reveal(acc_7_77);
    reveal(alpha_x_76);
    assert(bits_of_bytes(alpha_pow_7())[76] == bit_of(143u8, 4));
    assert(shift_add_mul(alpha_spec(), alpha_pow_7(), 77) =~= acc_7_77());
}

proof fn lemma_acc_7_78()
    ensures
        shift_add_mul(alpha_spec(), alpha_pow_7(), 78) == acc_7_78(),
{
    lemma_acc_7_77();
    lemma_alpha_x_77();
    lemma_alpha_byte_facts();
    reveal(bytes_p_7_78);
    reveal(alpha_pow_7);
    reveal(acc_7_77);
    reveal(acc_7_78);
    reveal(alpha_x_77);
    assert(bits_of_bytes(alpha_pow_7())[77] == bit_of(143u8, 5));
    assert(shift_add_mul(alpha_spec(), alpha_pow_7(), 78) =~= acc_7_78());
}

proof fn lemma_acc_7_79()
    ensures
        shift_add_mul(alpha_spec(), alpha_pow_7(), 79) == acc_7_79(),
{
    lemma_acc_7_78();
    lemma_alpha_x_78();
    lemma_alpha_byte_facts();
    reveal(bytes_p_7_79);
    reveal(alpha_pow_7);
    reveal(acc_7_78);
    reveal(acc_7_79);
    reveal(alpha_x_78);
    assert(bits_of_bytes(alpha_pow_7())[78] == bit_of(143u8, 6));
    assert(shift_add_mul(alpha_spec(), alpha_pow_7(), 79) =~= acc_7_79());
}

proof fn lemma_acc_7_80()
    ensures
        shift_add_mul(alpha_spec(), alpha_pow_7(), 80) == acc_7_80(),
{
    lemma_acc_7_79();
    lemma_alpha_x_79();
    lemma_alpha_byte_facts();
    reveal(bytes_p_7_80);
    reveal(alpha_pow_7);
    reveal(acc_7_79);
    reveal(acc_7_80);
    reveal(alpha_x_79);
    assert(bits_of_bytes(alpha_pow_7())[79] == bit_of(143u8, 7));
    assert(shift_add_mul(alpha_spec(), alpha_pow_7(), 80) =~= acc_7_80());
}

proof fn lemma_acc_7_81()
    ensures
        shift_add_mul(alpha_spec(), alpha_pow_7(), 81) == acc_7_81(),
{
    lemma_acc_7_80();
    lemma_alpha_x_80();
    lemma_alpha_byte_facts();
    reveal(bytes_p_7_81);
    reveal(alpha_pow_7);
    reveal(acc_7_80);
    reveal(acc_7_81);
    reveal(alpha_x_80);
    assert(bits_of_bytes(alpha_pow_7())[80] == bit_of(183u8, 0));
    assert(shift_add_mul(alpha_spec(), alpha_pow_7(), 81) =~= acc_7_81());
}

proof fn lemma_acc_7_82()
    ensures
        shift_add_mul(alpha_spec(), alpha_pow_7(), 82) == acc_7_82(),
{
    lemma_acc_7_81();
    lemma_alpha_x_81();
    lemma_alpha_byte_facts();
    reveal(bytes_p_7_82);
    reveal(alpha_pow_7);
    reveal(acc_7_81);
    reveal(acc_7_82);
    reveal(alpha_x_81);
    assert(bits_of_bytes(alpha_pow_7())[81] == bit_of(183u8, 1));
    assert(shift_add_mul(alpha_spec(), alpha_pow_7(), 82) =~= acc_7_82());
}

proof fn lemma_acc_7_83()
    ensures
        shift_add_mul(alpha_spec(), alpha_pow_7(), 83) == acc_7_83(),
{
    lemma_acc_7_82();
    lemma_alpha_x_82();
    lemma_alpha_byte_facts();
    reveal(bytes_p_7_83);
    reveal(alpha_pow_7);
    reveal(acc_7_82);
    reveal(acc_7_83);
    reveal(alpha_x_82);
    assert(bits_of_bytes(alpha_pow_7())[82] == bit_of(183u8, 2));
    assert(shift_add_mul(alpha_spec(), alpha_pow_7(), 83) =~= acc_7_83());
}

proof fn lemma_acc_7_84()
    ensures
        shift_add_mul(alpha_spec(), alpha_pow_7(), 84) == acc_7_84(),
{
    lemma_acc_7_83();
    lemma_alpha_x_83();
    lemma_alpha_byte_facts();
    reveal(bytes_p_7_84);
    reveal(alpha_pow_7);
    reveal(acc_7_83);
    reveal(acc_7_84);
    reveal(alpha_x_83);
    assert(bits_of_bytes(alpha_pow_7())[83] == bit_of(183u8, 3));
    assert(shift_add_mul(alpha_spec(), alpha_pow_7(), 84) =~= acc_7_84());
}

proof fn lemma_acc_7_85()
    ensures
        shift_add_mul(alpha_spec(), alpha_pow_7(), 85) == acc_7_85(),
{
    lemma_acc_7_84();
    lemma_alpha_x_84();
    lemma_alpha_byte_facts();
    reveal(bytes_p_7_85);
    reveal(alpha_pow_7);
    reveal(acc_7_84);
    reveal(acc_7_85);
    reveal(alpha_x_84);
    assert(bits_of_bytes(alpha_pow_7())[84] == bit_of(183u8, 4));
    assert(shift_add_mul(alpha_spec(), alpha_pow_7(), 85) =~= acc_7_85());
}

proof fn lemma_acc_7_86()
    ensures
        shift_add_mul(alpha_spec(), alpha_pow_7(), 86) == acc_7_86(),
{
    lemma_acc_7_85();
    lemma_alpha_x_85();
    lemma_alpha_byte_facts();
    reveal(bytes_p_7_86);
    reveal(alpha_pow_7);
    reveal(acc_7_85);
    reveal(acc_7_86);
    reveal(alpha_x_85);
    assert(bits_of_bytes(alpha_pow_7())[85] == bit_of(183u8, 5));
    assert(shift_add_mul(alpha_spec(), alpha_pow_7(), 86) =~= acc_7_86());
}

proof fn lemma_acc_7_87()
    ensures
        shift_add_mul(alpha_spec(), alpha_pow_7(), 87) == acc_7_87(),
{
    lemma_acc_7_86();
    lemma_alpha_x_86();
    lemma_alpha_byte_facts();
    reveal(bytes_p_7_87);
    reveal(alpha_pow_7);
    reveal(acc_7_86);
    reveal(acc_7_87);
    reveal(alpha_x_86);
    assert(bits_of_bytes(alpha_pow_7())[86] == bit_of(183u8, 6));
    assert(shift_add_mul(alpha_spec(), alpha_pow_7(), 87) =~= acc_7_87());
}

proof fn lemma_acc_7_88()
    ensures
        shift_add_mul(alpha_spec(), alpha_pow_7(), 88) == acc_7_88(),
{
    lemma_acc_7_87();
    lemma_alpha_x_87();
    lemma_alpha_byte_facts();
    reveal(bytes_p_7_88);
    reveal(alpha_pow_7);
    reveal(acc_7_87);
    reveal(acc_7_88);
    reveal(alpha_x_87);
    assert(bits_of_bytes(alpha_pow_7())[87] == bit_of(183u8, 7));
    assert(shift_add_mul(alpha_spec(), alpha_pow_7(), 88) =~= acc_7_88());
}

proof fn lemma_acc_7_89()
    ensures
        shift_add_mul(alpha_spec(), alpha_pow_7(), 89) == acc_7_89(),
{
    lemma_acc_7_88();
    lemma_alpha_x_88();
    lemma_alpha_byte_facts();
    reveal(bytes_p_7_89);
    reveal(alpha_pow_7);
    reveal(acc_7_88);
    reveal(acc_7_89);
    reveal(alpha_x_88);
    assert(bits_of_bytes(alpha_pow_7())[88] == bit_of(79u8, 0));
    assert(shift_add_mul(alpha_spec(), alpha_pow_7(), 89) =~= acc_7_89());
}

proof fn lemma_acc_7_90()
    ensures
        shift_add_mul(alpha_spec(), alpha_pow_7(), 90) == acc_7_90(),
{
    lemma_acc_7_89();
    lemma_alpha_x_89();
    lemma_alpha_byte_facts();
    reveal(bytes_p_7_90);
    reveal(alpha_pow_7);
    reveal(acc_7_89);
    reveal(acc_7_90);
    reveal(alpha_x_89);
    assert(bits_of_bytes(alpha_pow_7())[89] == bit_of(79u8, 1));
    assert(shift_add_mul(alpha_spec(), alpha_pow_7(), 90) =~= acc_7_90());
}

proof fn lemma_acc_7_91()
    ensures
        shift_add_mul(alpha_spec(), alpha_pow_7(), 91) == acc_7_91(),
{
    lemma_acc_7_90();
    lemma_alpha_x_90();
    lemma_alpha_byte_facts();
    reveal(bytes_p_7_91);
    reveal(alpha_pow_7);
    reveal(acc_7_90);
    reveal(acc_7_91);
    reveal(alpha_x_90);
    assert(bits_of_bytes(alpha_pow_7())[90] == bit_of(79u8, 2));
    assert(shift_add_mul(alpha_spec(), alpha_pow_7(), 91) =~= acc_7_91());
}

proof fn lemma_acc_7_92()
    ensures
        shift_add_mul(alpha_spec(), alpha_pow_7(), 92) == acc_7_92(),
{
    lemma_acc_7_91();
    lemma_alpha_x_91();
    lemma_alpha_byte_facts();
    reveal(bytes_p_7_92);
    reveal(alpha_pow_7);
    reveal(acc_7_91);
    reveal(acc_7_92);
    reveal(alpha_x_91);
    assert(bits_of_bytes(alpha_pow_7())[91] == bit_of(79u8, 3));
    assert(shift_add_mul(alpha_spec(), alpha_pow_7(), 92) =~= acc_7_92());
}

proof fn lemma_acc_7_93()
    ensures
        shift_add_mul(alpha_spec(), alpha_pow_7(), 93) == acc_7_93(),
{
    lemma_acc_7_92();
    lemma_alpha_x_92();
    lemma_alpha_byte_facts();
    reveal(bytes_p_7_93);
    reveal(alpha_pow_7);
    reveal(acc_7_92);
    reveal(acc_7_93);
    reveal(alpha_x_92);
    assert(bits_of_bytes(alpha_pow_7())[92] == bit_of(79u8, 4));
    assert(shift_add_mul(alpha_spec(), alpha_pow_7(), 93) =~= acc_7_93());
}

proof fn lemma_acc_7_94()
    ensures
        shift_add_mul(alpha_spec(), alpha_pow_7(), 94) == acc_7_94(),
{
    lemma_acc_7_93();
    lemma_alpha_x_93();
    lemma_alpha_byte_facts();
    reveal(bytes_p_7_94);
    reveal(alpha_pow_7);
    reveal(acc_7_93);
    reveal(acc_7_94);
    reveal(alpha_x_93);
    assert(bits_of_bytes(alpha_pow_7())[93] == bit_of(79u8, 5));
    assert(shift_add_mul(alpha_spec(), alpha_pow_7(), 94) =~= acc_7_94());
}

proof fn lemma_acc_7_95()
    ensures
        shift_add_mul(alpha_spec(), alpha_pow_7(), 95) == acc_7_95(),
{
    lemma_acc_7_94();
    lemma_alpha_x_94();
    lemma_alpha_byte_facts();
    reveal(bytes_p_7_95);
    reveal(alpha_pow_7);
    reveal(acc_7_94);
    reveal(acc_7_95);
    reveal(alpha_x_94);
    assert(bits_of_bytes(alpha_pow_7())[94] == bit_of(79u8, 6));
    assert(shift_add_mul(alpha_spec(), alpha_pow_7(), 95) =~= acc_7_95());
}

proof fn lemma_acc_7_96()
    ensures
        shift_add_mul(alpha_spec(), alpha_pow_7(), 96) == acc_7_96(),
{
    lemma_acc_7_95();
    lemma_alpha_x_95();
    lemma_alpha_byte_facts();
    reveal(bytes_p_7_96);
    reveal(alpha_pow_7);
    reveal(acc_7_95);
    reveal(acc_7_96);
    reveal(alpha_x_95);
    assert(bits_of_bytes(alpha_pow_7())[95] == bit_of(79u8, 7));
    assert(shift_add_mul(alpha_spec(), alpha_pow_7(), 96) =~= acc_7_96());
}

proof fn lemma_acc_7_97()
    ensures
        shift_add_mul(alpha_spec(), alpha_pow_7(), 97) == acc_7_97(),
{
    lemma_acc_7_96();
    lemma_alpha_x_96();
    lemma_alpha_byte_facts();
    reveal(bytes_p_7_97);
    reveal(alpha_pow_7);
    reveal(acc_7_96);
    reveal(acc_7_97);
    reveal(alpha_x_96);
    assert(bits_of_bytes(alpha_pow_7())[96] == bit_of(26u8, 0));
    assert(shift_add_mul(alpha_spec(), alpha_pow_7(), 97) =~= acc_7_97());
}

proof fn lemma_acc_7_98()
    ensures
        shift_add_mul(alpha_spec(), alpha_pow_7(), 98) == acc_7_98(),
{
    lemma_acc_7_97();
    lemma_alpha_x_97();
    lemma_alpha_byte_facts();
    reveal(bytes_p_7_98);
    reveal(alpha_pow_7);
    reveal(acc_7_97);
    reveal(acc_7_98);
    reveal(alpha_x_97);
    assert(bits_of_bytes(alpha_pow_7())[97] == bit_of(26u8, 1));
    assert(shift_add_mul(alpha_spec(), alpha_pow_7(), 98) =~= acc_7_98());
}

proof fn lemma_acc_7_99()
    ensures
        shift_add_mul(alpha_spec(), alpha_pow_7(), 99) == acc_7_99(),
{
    lemma_acc_7_98();
    lemma_alpha_x_98();
    lemma_alpha_byte_facts();
    reveal(bytes_p_7_99);
    reveal(alpha_pow_7);
    reveal(acc_7_98);
    reveal(acc_7_99);
    reveal(alpha_x_98);
    assert(bits_of_bytes(alpha_pow_7())[98] == bit_of(26u8, 2));
    assert(shift_add_mul(alpha_spec(), alpha_pow_7(), 99) =~= acc_7_99());
}

proof fn lemma_acc_7_100()
    ensures
        shift_add_mul(alpha_spec(), alpha_pow_7(), 100) == acc_7_100(),
{
    lemma_acc_7_99();
    lemma_alpha_x_99();
    lemma_alpha_byte_facts();
    reveal(bytes_p_7_100);
    reveal(alpha_pow_7);
    reveal(acc_7_99);
    reveal(acc_7_100);
    reveal(alpha_x_99);
    assert(bits_of_bytes(alpha_pow_7())[99] == bit_of(26u8, 3));
    assert(shift_add_mul(alpha_spec(), alpha_pow_7(), 100) =~= acc_7_100());
}

proof fn lemma_acc_7_101()
    ensures
        shift_add_mul(alpha_spec(), alpha_pow_7(), 101) == acc_7_101(),
{
    lemma_acc_7_100();
    lemma_alpha_x_100();
    lemma_alpha_byte_facts();
    reveal(bytes_p_7_101);
    reveal(alpha_pow_7);
    reveal(acc_7_100);
    reveal(acc_7_101);
    reveal(alpha_x_100);
    assert(bits_of_bytes(alpha_pow_7())[100] == bit_of(26u8, 4));
    assert(shift_add_mul(alpha_spec(), alpha_pow_7(), 101) =~= acc_7_101());
}

proof fn lemma_acc_7_102()
    ensures
        shift_add_mul(alpha_spec(), alpha_pow_7(), 102) == acc_7_102(),
{
    lemma_acc_7_101();
    lemma_alpha_x_101();
    lemma_alpha_byte_facts();
    reveal(bytes_p_7_102);
    reveal(alpha_pow_7);
    reveal(acc_7_101);
    reveal(acc_7_102);
    reveal(alpha_x_101);
    assert(bits_of_bytes(alpha_pow_7())[101] == bit_of(26u8, 5));
    assert(shift_add_mul(alpha_spec(), alpha_pow_7(), 102) =~= acc_7_102());
}

proof fn lemma_acc_7_103()
    ensures
        shift_add_mul(alpha_spec(), alpha_pow_7(), 103) == acc_7_103(),
{
    lemma_acc_7_102();
    lemma_alpha_x_102();
    lemma_alpha_byte_facts();
    reveal(bytes_p_7_103);
    reveal(alpha_pow_7);
    reveal(acc_7_102);
    reveal(acc_7_103);
    reveal(alpha_x_102);
    assert(bits_of_bytes(alpha_pow_7())[102] == bit_of(26u8, 6));
    assert(shift_add_mul(alpha_spec(), alpha_pow_7(), 103) =~= acc_7_103());
}

proof fn lemma_acc_7_104()
    ensures
        shift_add_mul(alpha_spec(), alpha_pow_7(), 104) == acc_7_104(),
{
    lemma_acc_7_103();
    lemma_alpha_x_103();
    lemma_alpha_byte_facts();
    reveal(bytes_p_7_104);
    reveal(alpha_pow_7);
    reveal(acc_7_103);
    reveal(acc_7_104);
    reveal(alpha_x_103);
    assert(bits_of_bytes(alpha_pow_7())[103] == bit_of(26u8, 7));
    assert(shift_add_mul(alpha_spec(), alpha_pow_7(), 104) =~= acc_7_104());
}

proof fn lemma_acc_7_105()
    ensures
        shift_add_mul(alpha_spec(), alpha_pow_7(), 105) == acc_7_105(),
{
    lemma_acc_7_104();
    lemma_alpha_x_104();
    lemma_alpha_byte_facts();
    reveal(bytes_p_7_105);
    reveal(alpha_pow_7);
    reveal(acc_7_104);
    reveal(acc_7_105);
    reveal(alpha_x_104);
    assert(bits_of_bytes(alpha_pow_7())[104] == bit_of(49u8, 0));
    assert(shift_add_mul(alpha_spec(), alpha_pow_7(), 105) =~= acc_7_105());
}

proof fn lemma_acc_7_106()
    ensures
        shift_add_mul(alpha_spec(), alpha_pow_7(), 106) == acc_7_106(),
{
    lemma_acc_7_105();
    lemma_alpha_x_105();
    lemma_alpha_byte_facts();
    reveal(bytes_p_7_106);
    reveal(alpha_pow_7);
    reveal(acc_7_105);
    reveal(acc_7_106);
    reveal(alpha_x_105);
    assert(bits_of_bytes(alpha_pow_7())[105] == bit_of(49u8, 1));
    assert(shift_add_mul(alpha_spec(), alpha_pow_7(), 106) =~= acc_7_106());
}

proof fn lemma_acc_7_107()
    ensures
        shift_add_mul(alpha_spec(), alpha_pow_7(), 107) == acc_7_107(),
{
    lemma_acc_7_106();
    lemma_alpha_x_106();
    lemma_alpha_byte_facts();
    reveal(bytes_p_7_107);
    reveal(alpha_pow_7);
    reveal(acc_7_106);
    reveal(acc_7_107);
    reveal(alpha_x_106);
    assert(bits_of_bytes(alpha_pow_7())[106] == bit_of(49u8, 2));
    assert(shift_add_mul(alpha_spec(), alpha_pow_7(), 107) =~= acc_7_107());
}

proof fn lemma_acc_7_108()
    ensures
        shift_add_mul(alpha_spec(), alpha_pow_7(), 108) == acc_7_108(),
{
    lemma_acc_7_107();
    lemma_alpha_x_107();
    lemma_alpha_byte_facts();
    reveal(bytes_p_7_108);
    reveal(alpha_pow_7);
    reveal(acc_7_107);
    reveal(acc_7_108);
    reveal(alpha_x_107);
    assert(bits_of_bytes(alpha_pow_7())[107] == bit_of(49u8, 3));
    assert(shift_add_mul(alpha_spec(), alpha_pow_7(), 108) =~= acc_7_108());
}

proof fn lemma_acc_7_109()
    ensures
        shift_add_mul(alpha_spec(), alpha_pow_7(), 109) == acc_7_109(),
{
    lemma_acc_7_108();
    lemma_alpha_x_108();
    lemma_alpha_byte_facts();
    reveal(bytes_p_7_109);
    reveal(alpha_pow_7);
    reveal(acc_7_108);
    reveal(acc_7_109);
    reveal(alpha_x_108);
    assert(bits_of_bytes(alpha_pow_7())[108] == bit_of(49u8, 4));
    assert(shift_add_mul(alpha_spec(), alpha_pow_7(), 109) =~= acc_7_109());
}

proof fn lemma_acc_7_110()
    ensures
        shift_add_mul(alpha_spec(), alpha_pow_7(), 110) == acc_7_110(),
{
    lemma_acc_7_109();
    lemma_alpha_x_109();
    lemma_alpha_byte_facts();
    reveal(bytes_p_7_110);
    reveal(alpha_pow_7);
    reveal(acc_7_109);
    reveal(acc_7_110);
    reveal(alpha_x_109);
    assert(bits_of_bytes(alpha_pow_7())[109] == bit_of(49u8, 5));
    assert(shift_add_mul(alpha_spec(), alpha_pow_7(), 110) =~= acc_7_110());
}

proof fn lemma_acc_7_111()
    ensures
        shift_add_mul(alpha_spec(), alpha_pow_7(), 111) == acc_7_111(),
{
    lemma_acc_7_110();
    lemma_alpha_x_110();
    lemma_alpha_byte_facts();
    reveal(bytes_p_7_111);
    reveal(alpha_pow_7);
    reveal(acc_7_110);
    reveal(acc_7_111);
    reveal(alpha_x_110);
    assert(bits_of_bytes(alpha_pow_7())[110] == bit_of(49u8, 6));
    assert(shift_add_mul(alpha_spec(), alpha_pow_7(), 111) =~= acc_7_111());
}

proof fn lemma_acc_7_112()
    ensures
        shift_add_mul(alpha_spec(), alpha_pow_7(), 112) == acc_7_112(),
{
    lemma_acc_7_111();
    lemma_alpha_x_111();
    lemma_alpha_byte_facts();
    reveal(bytes_p_7_112);
    reveal(alpha_pow_7);
    reveal(acc_7_111);
    reveal(acc_7_112);
    reveal(alpha_x_111);
    assert(bits_of_bytes(alpha_pow_7())[111] == bit_of(49u8, 7));
    assert(shift_add_mul(alpha_spec(), alpha_pow_7(), 112) =~= acc_7_112());
}

proof fn lemma_acc_7_113()
    ensures
        shift_add_mul(alpha_spec(), alpha_pow_7(), 113) == acc_7_113(),
{
    lemma_acc_7_112();
    lemma_alpha_x_112();
    lemma_alpha_byte_facts();
    reveal(bytes_p_7_113);
    reveal(alpha_pow_7);
    reveal(acc_7_112);
    reveal(acc_7_113);
    reveal(alpha_x_112);
    assert(bits_of_bytes(alpha_pow_7())[112] == bit_of(80u8, 0));
    assert(shift_add_mul(alpha_spec(), alpha_pow_7(), 113) =~= acc_7_113());
}

proof fn lemma_acc_7_114()
    ensures
        shift_add_mul(alpha_spec(), alpha_pow_7(), 114) == acc_7_114(),
{
    lemma_acc_7_113();
    lemma_alpha_x_113();
    lemma_alpha_byte_facts();
    reveal(bytes_p_7_114);
    reveal(alpha_pow_7);
    reveal(acc_7_113);
    reveal(acc_7_114);
    reveal(alpha_x_113);
    assert(bits_of_bytes(alpha_pow_7())[113] == bit_of(80u8, 1));
    assert(shift_add_mul(alpha_spec(), alpha_pow_7(), 114) =~= acc_7_114());
}

proof fn lemma_acc_7_115()
    ensures
        shift_add_mul(alpha_spec(), alpha_pow_7(), 115) == acc_7_115(),
{
    lemma_acc_7_114();
    lemma_alpha_x_114();
    lemma_alpha_byte_facts();
    reveal(bytes_p_7_115);
    reveal(alpha_pow_7);
    reveal(acc_7_114);
    reveal(acc_7_115);
    reveal(alpha_x_114);
    assert(bits_of_bytes(alpha_pow_7())[114] == bit_of(80u8, 2));
    assert(shift_add_mul(alpha_spec(), alpha_pow_7(), 115) =~= acc_7_115());
}

proof fn lemma_acc_7_116()
    ensures
        shift_add_mul(alpha_spec(), alpha_pow_7(), 116) == acc_7_116(),
{
    lemma_acc_7_115();
    lemma_alpha_x_115();
    lemma_alpha_byte_facts();
    reveal(bytes_p_7_116);
    reveal(alpha_pow_7);
    reveal(acc_7_115);
    reveal(acc_7_116);
    reveal(alpha_x_115);
    assert(bits_of_bytes(alpha_pow_7())[115] == bit_of(80u8, 3));
    assert(shift_add_mul(alpha_spec(), alpha_pow_7(), 116) =~= acc_7_116());
}

proof fn lemma_acc_7_117()
    ensures
        shift_add_mul(alpha_spec(), alpha_pow_7(), 117) == acc_7_117(),
{
    lemma_acc_7_116();
    lemma_alpha_x_116();
    lemma_alpha_byte_facts();
    reveal(bytes_p_7_117);
    reveal(alpha_pow_7);
    reveal(acc_7_116);
    reveal(acc_7_117);
    reveal(alpha_x_116);
    assert(bits_of_bytes(alpha_pow_7())[116] == bit_of(80u8, 4));
    assert(shift_add_mul(alpha_spec(), alpha_pow_7(), 117) =~= acc_7_117());
}

proof fn lemma_acc_7_118()
    ensures
        shift_add_mul(alpha_spec(), alpha_pow_7(), 118) == acc_7_118(),
{
    lemma_acc_7_117();
    lemma_alpha_x_117();
    lemma_alpha_byte_facts();
    reveal(bytes_p_7_118);
    reveal(alpha_pow_7);
    reveal(acc_7_117);
    reveal(acc_7_118);
    reveal(alpha_x_117);
    assert(bits_of_bytes(alpha_pow_7())[117] == bit_of(80u8, 5));
    assert(shift_add_mul(alpha_spec(), alpha_pow_7(), 118) =~= acc_7_118());
}

proof fn lemma_acc_7_119()
    ensures
        shift_add_mul(alpha_spec(), alpha_pow_7(), 119) == acc_7_119(),
{
    lemma_acc_7_118();
    lemma_alpha_x_118();
    lemma_alpha_byte_facts();
    reveal(bytes_p_7_119);
    reveal(alpha_pow_7);
    reveal(acc_7_118);
    reveal(acc_7_119);
    reveal(alpha_x_118);
    assert(bits_of_bytes(alpha_pow_7())[118] == bit_of(80u8, 6));
    assert(shift_add_mul(alpha_spec(), alpha_pow_7(), 119) =~= acc_7_119());
}

proof fn lemma_acc_7_120()
    ensures
        shift_add_mul(alpha_spec(), alpha_pow_7(), 120) == acc_7_120(),
{
    lemma_acc_7_119();
    lemma_alpha_x_119();
    lemma_alpha_byte_facts();
    reveal(bytes_p_7_120);
    reveal(alpha_pow_7);
    reveal(acc_7_119);
    reveal(acc_7_120);
    reveal(alpha_x_119);
    assert(bits_of_bytes(alpha_pow_7())[119] == bit_of(80u8, 7));
    assert(shift_add_mul(alpha_spec(), alpha_pow_7(), 120) =~= acc_7_120());
}

proof fn lemma_acc_7_121()
    ensures
        shift_add_mul(alpha_spec(), alpha_pow_7(), 121) == acc_7_121(),
{
    lemma_acc_7_120();
    lemma_alpha_x_120();
    lemma_alpha_byte_facts();
    reveal(bytes_p_7_121);
    reveal(alpha_pow_7);
    reveal(acc_7_120);
    reveal(acc_7_121);
    reveal(alpha_x_120);
    assert(bits_of_bytes(alpha_pow_7())[120] == bit_of(9u8, 0));
    assert(shift_add_mul(alpha_spec(), alpha_pow_7(), 121) =~= acc_7_121());
}

proof fn lemma_acc_7_122()
    ensures
        shift_add_mul(alpha_spec(), alpha_pow_7(), 122) == acc_7_122(),
{
    lemma_acc_7_121();
    lemma_alpha_x_121();
    lemma_alpha_byte_facts();
    reveal(bytes_p_7_122);
    reveal(alpha_pow_7);
    reveal(acc_7_121);
    reveal(acc_7_122);
    reveal(alpha_x_121);
    assert(bits_of_bytes(alpha_pow_7())[121] == bit_of(9u8, 1));
    assert(shift_add_mul(alpha_spec(), alpha_pow_7(), 122) =~= acc_7_122());
}

proof fn lemma_acc_7_123()
    ensures
        shift_add_mul(alpha_spec(), alpha_pow_7(), 123) == acc_7_123(),
{
    lemma_acc_7_122();
    lemma_alpha_x_122();
    lemma_alpha_byte_facts();
    reveal(bytes_p_7_123);
    reveal(alpha_pow_7);
    reveal(acc_7_122);
    reveal(acc_7_123);
    reveal(alpha_x_122);
    assert(bits_of_bytes(alpha_pow_7())[122] == bit_of(9u8, 2));
    assert(shift_add_mul(alpha_spec(), alpha_pow_7(), 123) =~= acc_7_123());
}

proof fn lemma_acc_7_124()
    ensures
        shift_add_mul(alpha_spec(), alpha_pow_7(), 124) == acc_7_124(),
{
    lemma_acc_7_123();
    lemma_alpha_x_123();
    lemma_alpha_byte_facts();
    reveal(bytes_p_7_124);
    reveal(alpha_pow_7);
    reveal(acc_7_123);
    reveal(acc_7_124);
    reveal(alpha_x_123);
    assert(bits_of_bytes(alpha_pow_7())[123] == bit_of(9u8, 3));
    assert(shift_add_mul(alpha_spec(), alpha_pow_7(), 124) =~= acc_7_124());
}

proof fn lemma_acc_7_125()
    ensures
        shift_add_mul(alpha_spec(), alpha_pow_7(), 125) == acc_7_125(),
{
    lemma_acc_7_124();
    lemma_alpha_x_124();
    lemma_alpha_byte_facts();
    reveal(bytes_p_7_125);
    reveal(alpha_pow_7);
    reveal(acc_7_124);
    reveal(acc_7_125);
    reveal(alpha_x_124);
    assert(bits_of_bytes(alpha_pow_7())[124] == bit_of(9u8, 4));
    assert(shift_add_mul(alpha_spec(), alpha_pow_7(), 125) =~= acc_7_125());
}

proof fn lemma_acc_7_126()
    ensures
        shift_add_mul(alpha_spec(), alpha_pow_7(), 126) == acc_7_126(),
{
    lemma_acc_7_125();
    lemma_alpha_x_125();
    lemma_alpha_byte_facts();
    reveal(bytes_p_7_126);
    reveal(alpha_pow_7);
    reveal(acc_7_125);
    reveal(acc_7_126);
    reveal(alpha_x_125);
    assert(bits_of_bytes(alpha_pow_7())[125] == bit_of(9u8, 5));
    assert(shift_add_mul(alpha_spec(), alpha_pow_7(), 126) =~= acc_7_126());
}

proof fn lemma_acc_7_127()
    ensures
        shift_add_mul(alpha_spec(), alpha_pow_7(), 127) == acc_7_127(),
{
    lemma_acc_7_126();
    lemma_alpha_x_126();
    lemma_alpha_byte_facts();
    reveal(bytes_p_7_127);
    reveal(alpha_pow_7);
    reveal(acc_7_126);
    reveal(acc_7_127);
    reveal(alpha_x_126);
    assert(bits_of_bytes(alpha_pow_7())[126] == bit_of(9u8, 6));
    assert(shift_add_mul(alpha_spec(), alpha_pow_7(), 127) =~= acc_7_127());
}

proof fn lemma_acc_7_128()
    ensures
        shift_add_mul(alpha_spec(), alpha_pow_7(), 128) == acc_7_128(),
{
    lemma_acc_7_127();
    lemma_alpha_x_127();
    lemma_alpha_byte_facts();
    reveal(bytes_p_7_128);
    reveal(alpha_pow_7);
    reveal(acc_7_127);
    reveal(acc_7_128);
    reveal(alpha_x_127);
    assert(bits_of_bytes(alpha_pow_7())[127] == bit_of(9u8, 7));
    assert(shift_add_mul(alpha_spec(), alpha_pow_7(), 128) =~= acc_7_128());
}

/// The next power: where alpha^k is p and alpha times p is q, alpha^(k+1) is q.
proof fn lemma_pow_next(p: Seq<u8>, q: Seq<u8>, k: int)
    requires
        k >= 1,
        p.len() == 16,
        gf_lambda_pow_spec(alpha_spec(), k) == p,
        shift_add_mul(alpha_spec(), p, 128) == q,
    ensures
        gf_lambda_pow_spec(alpha_spec(), k + 1) == q,
{
    assert(alpha_spec().len() == 16);
    lemma_gf128_mul_comm(p, alpha_spec());
    lemma_gf128_mul_shift_add(alpha_spec(), p);
}

proof fn lemma_alpha_pow_len_1()
    ensures
        alpha_pow_1().len() == 16,
{
    reveal(alpha_pow_1);
}

proof fn lemma_alpha_pow_len_2()
    ensures
        alpha_pow_2().len() == 16,
{
    reveal(alpha_pow_2);
}

proof fn lemma_alpha_pow_len_3()
    ensures
        alpha_pow_3().len() == 16,
{
    reveal(alpha_pow_3);
}

proof fn lemma_alpha_pow_len_4()
    ensures
        alpha_pow_4().len() == 16,
{
    reveal(alpha_pow_4);
}

proof fn lemma_alpha_pow_len_5()
    ensures
        alpha_pow_5().len() == 16,
{
    reveal(alpha_pow_5);
}

proof fn lemma_alpha_pow_len_6()
    ensures
        alpha_pow_6().len() == 16,
{
    reveal(alpha_pow_6);
}

proof fn lemma_alpha_pow_len_7()
    ensures
        alpha_pow_7().len() == 16,
{
    reveal(alpha_pow_7);
}

proof fn lemma_alpha_pow_is_1()
    ensures
        gf_lambda_pow_spec(alpha_spec(), 1) == alpha_pow_1(),
{
    reveal(alpha_pow_1);
    assert(alpha_spec() =~= alpha_pow_1());
}

proof fn lemma_alpha_pow_is_2()
    ensures
        gf_lambda_pow_spec(alpha_spec(), 2) == alpha_pow_2(),
{
    lemma_alpha_pow_is_1();
    lemma_alpha_pow_len_1();
    lemma_acc_1_128();
    assert(acc_1_128() == alpha_pow_2()) by {
        reveal(acc_1_128);
        reveal(alpha_pow_2);
        assert(acc_1_128() =~= alpha_pow_2());
    }
    lemma_pow_next(alpha_pow_1(), alpha_pow_2(), 1);
}

proof fn lemma_alpha_pow_is_3()
    ensures
        gf_lambda_pow_spec(alpha_spec(), 3) == alpha_pow_3(),
{
    lemma_alpha_pow_is_2();
    lemma_alpha_pow_len_2();
    lemma_acc_2_128();
    assert(acc_2_128() == alpha_pow_3()) by {
        reveal(acc_2_128);
        reveal(alpha_pow_3);
        assert(acc_2_128() =~= alpha_pow_3());
    }
    lemma_pow_next(alpha_pow_2(), alpha_pow_3(), 2);
}

proof fn lemma_alpha_pow_is_4()
    ensures
        gf_lambda_pow_spec(alpha_spec(), 4) == alpha_pow_4(),
{
    lemma_alpha_pow_is_3();
    lemma_alpha_pow_len_3();
    lemma_acc_3_128();
    assert(acc_3_128() == alpha_pow_4()) by {
        reveal(acc_3_128);
        reveal(alpha_pow_4);
        assert(acc_3_128() =~= alpha_pow_4());
    }
    lemma_pow_next(alpha_pow_3(), alpha_pow_4(), 3);
}

proof fn lemma_alpha_pow_is_5()
    ensures
        gf_lambda_pow_spec(alpha_spec(), 5) == alpha_pow_5(),
{
    lemma_alpha_pow_is_4();
    lemma_alpha_pow_len_4();
    lemma_acc_4_128();
    assert(acc_4_128() == alpha_pow_5()) by {
        reveal(acc_4_128);
        reveal(alpha_pow_5);
        assert(acc_4_128() =~= alpha_pow_5());
    }
    lemma_pow_next(alpha_pow_4(), alpha_pow_5(), 4);
}

proof fn lemma_alpha_pow_is_6()
    ensures
        gf_lambda_pow_spec(alpha_spec(), 6) == alpha_pow_6(),
{
    lemma_alpha_pow_is_5();
    lemma_alpha_pow_len_5();
    lemma_acc_5_128();
    assert(acc_5_128() == alpha_pow_6()) by {
        reveal(acc_5_128);
        reveal(alpha_pow_6);
        assert(acc_5_128() =~= alpha_pow_6());
    }
    lemma_pow_next(alpha_pow_5(), alpha_pow_6(), 5);
}

proof fn lemma_alpha_pow_is_7()
    ensures
        gf_lambda_pow_spec(alpha_spec(), 7) == alpha_pow_7(),
{
    lemma_alpha_pow_is_6();
    lemma_alpha_pow_len_6();
    lemma_acc_6_128();
    assert(acc_6_128() == alpha_pow_7()) by {
        reveal(acc_6_128);
        reveal(alpha_pow_7);
        assert(acc_6_128() =~= alpha_pow_7());
    }
    lemma_pow_next(alpha_pow_6(), alpha_pow_7(), 6);
}

proof fn lemma_alpha_pow_is_8()
    ensures
        gf_lambda_pow_spec(alpha_spec(), 8) == alpha_pow_8(),
{
    lemma_alpha_pow_is_7();
    lemma_alpha_pow_len_7();
    lemma_acc_7_128();
    assert(acc_7_128() == alpha_pow_8()) by {
        reveal(acc_7_128);
        reveal(alpha_pow_8);
        assert(acc_7_128() =~= alpha_pow_8());
    }
    lemma_pow_next(alpha_pow_7(), alpha_pow_8(), 7);
}

/// alpha^8 = 1 + alpha + alpha^3 + alpha^4 on the computed values.
proof fn lemma_alpha_root_values()
    ensures
        alpha_pow_8() == xor_seq(xor_seq(xor_seq(gf_one(), alpha_pow_1()), alpha_pow_3()), alpha_pow_4()),
{
    lemma_alpha_byte_facts();
    reveal(bytes_final);
    reveal(alpha_pow_1);
    reveal(alpha_pow_3);
    reveal(alpha_pow_4);
    reveal(alpha_pow_8);
    assert(gf_one() =~= seq![1u8, 0u8, 0u8, 0u8, 0u8, 0u8, 0u8, 0u8, 0u8, 0u8, 0u8, 0u8, 0u8, 0u8, 0u8, 0u8]);
    assert(xor_seq(seq![1u8, 0u8, 0u8, 0u8, 0u8, 0u8, 0u8, 0u8, 0u8, 0u8, 0u8, 0u8, 0u8, 0u8, 0u8, 0u8], seq![13u8, 206u8, 96u8, 85u8, 172u8, 232u8, 63u8, 161u8, 28u8, 154u8, 151u8, 169u8, 85u8, 133u8, 61u8, 5u8]) =~= seq![12u8, 206u8, 96u8, 85u8, 172u8, 232u8, 63u8, 161u8, 28u8, 154u8, 151u8, 169u8, 85u8, 133u8, 61u8, 5u8]);
    assert(xor_seq(seq![12u8, 206u8, 96u8, 85u8, 172u8, 232u8, 63u8, 161u8, 28u8, 154u8, 151u8, 169u8, 85u8, 133u8, 61u8, 5u8], seq![168u8, 70u8, 57u8, 54u8, 174u8, 2u8, 207u8, 191u8, 198u8, 210u8, 81u8, 125u8, 79u8, 96u8, 173u8, 53u8]) =~= seq![164u8, 136u8, 89u8, 99u8, 2u8, 234u8, 240u8, 30u8, 218u8, 72u8, 198u8, 212u8, 26u8, 229u8, 144u8, 48u8]);
    assert(xor_seq(seq![164u8, 136u8, 89u8, 99u8, 2u8, 234u8, 240u8, 30u8, 218u8, 72u8, 198u8, 212u8, 26u8, 229u8, 144u8, 48u8], seq![73u8, 152u8, 46u8, 60u8, 72u8, 48u8, 131u8, 107u8, 254u8, 34u8, 162u8, 64u8, 70u8, 54u8, 203u8, 13u8]) =~= seq![237u8, 16u8, 119u8, 95u8, 74u8, 218u8, 115u8, 117u8, 36u8, 106u8, 100u8, 148u8, 92u8, 211u8, 91u8, 61u8]);
}

/// alpha is a root of the AES polynomial x^8 + x^4 + x^3 + x + 1: alpha^8 = 1 + alpha +
/// alpha^3 + alpha^4 in F_{2^128}.
pub proof fn lemma_alpha_aes_root()
    ensures
        gf_lambda_pow_spec(alpha_spec(), 8) == xor_seq(
            xor_seq(xor_seq(gf_one(), gf_lambda_pow_spec(alpha_spec(), 1)), gf_lambda_pow_spec(alpha_spec(), 3)),
            gf_lambda_pow_spec(alpha_spec(), 4),
        ),
{
    lemma_alpha_pow_is_1();
    lemma_alpha_pow_is_3();
    lemma_alpha_pow_is_4();
    lemma_alpha_pow_is_8();
    lemma_alpha_root_values();
}

} // verus!
