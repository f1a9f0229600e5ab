//! Perceptual gamma correction as fixed-point data.
//!
//! Raw linear luminance under-represents mid-tones to the eye, so each
//! 8-bit luminance level is remapped through the power law `g = L ^ 0.45`
//! before it is quantised to a ramp index. The remapped value is kept in
//! 16.16-style fixed point: entry `l` holds `L ^ 0.45` for `L = l / 255`,
//! scaled so that level 0 maps to 0 and level 255 maps to 65535.

use vstd::prelude::*;

verus! {

/// Gamma-corrected brightness of an 8-bit luminance level, scaled to
/// `0 ..= 65535`.
pub closed spec fn gamma_level(l: u8) -> u16 {
    match l {
            0u8 => 0u16,
            1u8 => 5414u16,
            2u8 => 7396u16,
            3u8 => 8876u16,
            4u8 => 10103u16,
            5u8 => 11170u16,
            6u8 => 12125u16,
            7u8 => 12996u16,
            8u8 => 13801u16,
            9u8 => 14553u16,
            10u8 => 15259u16,
            11u8 => 15928u16,
            12u8 => 16564u16,
            13u8 => 17171u16,
            14u8 => 17754u16,
            15u8 => 18313u16,
            16u8 => 18853u16,
            17u8 => 19375u16,
            18u8 => 19879u16,
            19u8 => 20369u16,
            20u8 => 20845u16,
            21u8 => 21307u16,
            22u8 => 21758u16,
            23u8 => 22198u16,
            24u8 => 22627u16,
            25u8 => 23046u16,
            26u8 => 23457u16,
            27u8 => 23859u16,
            28u8 => 24252u16,
            29u8 => 24638u16,
            30u8 => 25017u16,
            31u8 => 25389u16,
            32u8 => 25754u16,
            33u8 => 26113u16,
            34u8 => 26466u16,
            35u8 => 26814u16,
            36u8 => 27156u16,
            37u8 => 27493u16,
            38u8 => 27825u16,
            39u8 => 28152u16,
            40u8 => 28475u16,
            41u8 => 28793u16,
            42u8 => 29107u16,
            43u8 => 29417u16,
            44u8 => 29722u16,
            45u8 => 30025u16,
            46u8 => 30323u16,
            47u8 => 30618u16,
            48u8 => 30909u16,
            49u8 => 31197u16,
            50u8 => 31482u16,
            51u8 => 31764u16,
            52u8 => 32043u16,
            53u8 => 32319u16,
            54u8 => 32592u16,
            55u8 => 32862u16,
            56u8 => 33129u16,
            57u8 => 33394u16,
            58u8 => 33657u16,
            59u8 => 33917u16,
            60u8 => 34174u16,
            61u8 => 34429u16,
            62u8 => 34682u16,
            63u8 => 34933u16,
            64u8 => 35181u16,
            65u8 => 35428u16,
            66u8 => 35672u16,
            67u8 => 35914u16,
            68u8 => 36154u16,
            69u8 => 36393u16,
            70u8 => 36629u16,
            71u8 => 36863u16,
            72u8 => 37096u16,
            73u8 => 37327u16,
            74u8 => 37556u16,
            75u8 => 37784u16,
            76u8 => 38010u16,
            77u8 => 38234u16,
            78u8 => 38457u16,
            79u8 => 38678u16,
            80u8 => 38897u16,
            81u8 => 39115u16,
            82u8 => 39332u16,
            83u8 => 39547u16,
            84u8 => 39761u16,
            85u8 => 39973u16,
            86u8 => 40184u16,
            87u8 => 40394u16,
            88u8 => 40602u16,
            89u8 => 40809u16,
            90u8 => 41015u16,
            91u8 => 41219u16,
            92u8 => 41422u16,
            93u8 => 41624u16,
            94u8 => 41825u16,
            95u8 => 42025u16,
            96u8 => 42223u16,
            97u8 => 42421u16,
            98u8 => 42617u16,
            99u8 => 42812u16,
            100u8 => 43006u16,
            101u8 => 43199u16,
            102u8 => 43391u16,
            103u8 => 43582u16,
            104u8 => 43772u16,
            105u8 => 43961u16,
            106u8 => 44149u16,
            107u8 => 44336u16,
            108u8 => 44522u16,
            109u8 => 44707u16,
            110u8 => 44891u16,
            111u8 => 45074u16,
            112u8 => 45256u16,
            113u8 => 45438u16,
            114u8 => 45618u16,
            115u8 => 45798u16,
            116u8 => 45977u16,
            117u8 => 46154u16,
            118u8 => 46332u16,
            119u8 => 46508u16,
            120u8 => 46683u16,
            121u8 => 46858u16,
            122u8 => 47032u16,
            123u8 => 47205u16,
            124u8 => 47377u16,
            125u8 => 47549u16,
            126u8 => 47720u16,
            127u8 => 47890u16,
            128u8 => 48059u16,
            129u8 => 48228u16,
            130u8 => 48395u16,
            131u8 => 48563u16,
            132u8 => 48729u16,
            133u8 => 48895u16,
            134u8 => 49060u16,
            135u8 => 49224u16,
            136u8 => 49388u16,
            137u8 => 49551u16,
            138u8 => 49714u16,
            139u8 => 49875u16,
            140u8 => 50037u16,
            141u8 => 50197u16,
            142u8 => 50357u16,
            143u8 => 50516u16,
            144u8 => 50675u16,
            145u8 => 50833u16,
            146u8 => 50990u16,
            147u8 => 51147u16,
            148u8 => 51304u16,
            149u8 => 51459u16,
            150u8 => 51614u16,
            151u8 => 51769u16,
            152u8 => 51923u16,
            153u8 => 52076u16,
            154u8 => 52229u16,
            155u8 => 52382u16,
            156u8 => 52533u16,
            157u8 => 52685u16,
            158u8 => 52836u16,
            159u8 => 52986u16,
            160u8 => 53135u16,
            161u8 => 53285u16,
            162u8 => 53433u16,
            163u8 => 53581u16,
            164u8 => 53729u16,
            165u8 => 53876u16,
            166u8 => 54023u16,
            167u8 => 54169u16,
            168u8 => 54315u16,
            169u8 => 54460u16,
            170u8 => 54605u16,
            171u8 => 54749u16,
            172u8 => 54893u16,
            173u8 => 55037u16,
            174u8 => 55179u16,
            175u8 => 55322u16,
            176u8 => 55464u16,
            177u8 => 55606u16,
            178u8 => 55747u16,
            179u8 => 55887u16,
            180u8 => 56028u16,
            181u8 => 56168u16,
            182u8 => 56307u16,
            183u8 => 56446u16,
            184u8 => 56585u16,
            185u8 => 56723u16,
            186u8 => 56861u16,
            187u8 => 56998u16,
            188u8 => 57135u16,
            189u8 => 57271u16,
            190u8 => 57408u16,
            191u8 => 57543u16,
            192u8 => 57679u16,
            193u8 => 57814u16,
            194u8 => 57948u16,
            195u8 => 58083u16,
            196u8 => 58216u16,
            197u8 => 58350u16,
            198u8 => 58483u16,
            199u8 => 58616u16,
            200u8 => 58748u16,
            201u8 => 58880u16,
            202u8 => 59012u16,
            203u8 => 59143u16,
            204u8 => 59274u16,
            205u8 => 59405u16,
            206u8 => 59535u16,
            207u8 => 59665u16,
            208u8 => 59794u16,
            209u8 => 59923u16,
            210u8 => 60052u16,
            211u8 => 60181u16,
            212u8 => 60309u16,
            213u8 => 60437u16,
            214u8 => 60564u16,
            215u8 => 60691u16,
            216u8 => 60818u16,
            217u8 => 60945u16,
            218u8 => 61071u16,
            219u8 => 61197u16,
            220u8 => 61323u16,
            221u8 => 61448u16,
            222u8 => 61573u16,
            223u8 => 61697u16,
            224u8 => 61822u16,
            225u8 => 61946u16,
            226u8 => 62070u16,
            227u8 => 62193u16,
            228u8 => 62316u16,
            229u8 => 62439u16,
            230u8 => 62562u16,
            231u8 => 62684u16,
            232u8 => 62806u16,
            233u8 => 62927u16,
            234u8 => 63049u16,
            235u8 => 63170u16,
            236u8 => 63291u16,
            237u8 => 63411u16,
            238u8 => 63532u16,
            239u8 => 63652u16,
            240u8 => 63771u16,
            241u8 => 63891u16,
            242u8 => 64010u16,
            243u8 => 64129u16,
            244u8 => 64247u16,
            245u8 => 64366u16,
            246u8 => 64484u16,
            247u8 => 64602u16,
            248u8 => 64719u16,
            249u8 => 64837u16,
            250u8 => 64954u16,
            251u8 => 65070u16,
            252u8 => 65187u16,
            253u8 => 65303u16,
            254u8 => 65419u16,
            _ => 65535u16,
    }
}

/// The table's endpoints: black stays at the bottom of the scale and white
/// at the top.
pub proof fn lemma_gamma_endpoints()
    ensures
        gamma_level(0) == 0,
        gamma_level(255) == 65535,
{
}

/// Every gamma value fits the fixed-point scale.
pub proof fn lemma_gamma_bound(l: u8)
    ensures
        gamma_level(l) <= 65535,
{
}

/// Looks the luminance level up in the gamma table.
pub fn gamma_of(l: u8) -> (g: u16)
    ensures
        g == gamma_level(l),
        g <= 65535,
{
    match l {
            0u8 => 0u16,
            1u8 => 5414u16,
            2u8 => 7396u16,
            3u8 => 8876u16,
            4u8 => 10103u16,
            5u8 => 11170u16,
            6u8 => 12125u16,
            7u8 => 12996u16,
            8u8 => 13801u16,
            9u8 => 14553u16,
            10u8 => 15259u16,
            11u8 => 15928u16,
            12u8 => 16564u16,
            13u8 => 17171u16,
            14u8 => 17754u16,
            15u8 => 18313u16,
            16u8 => 18853u16,
            17u8 => 19375u16,
            18u8 => 19879u16,
            19u8 => 20369u16,
            20u8 => 20845u16,
            21u8 => 21307u16,
            22u8 => 21758u16,
            23u8 => 22198u16,
            24u8 => 22627u16,
            25u8 => 23046u16,
            26u8 => 23457u16,
            27u8 => 23859u16,
            28u8 => 24252u16,
            29u8 => 24638u16,
            30u8 => 25017u16,
            31u8 => 25389u16,
            32u8 => 25754u16,
            33u8 => 26113u16,
            34u8 => 26466u16,
            35u8 => 26814u16,
            36u8 => 27156u16,
            37u8 => 27493u16,
            38u8 => 27825u16,
            39u8 => 28152u16,
            40u8 => 28475u16,
            41u8 => 28793u16,
            42u8 => 29107u16,
            43u8 => 29417u16,
            44u8 => 29722u16,
            45u8 => 30025u16,
            46u8 => 30323u16,
            47u8 => 30618u16,
            48u8 => 30909u16,
            49u8 => 31197u16,
            50u8 => 31482u16,
            51u8 => 31764u16,
            52u8 => 32043u16,
            53u8 => 32319u16,
            54u8 => 32592u16,
            55u8 => 32862u16,
            56u8 => 33129u16,
            57u8 => 33394u16,
            58u8 => 33657u16,
            59u8 => 33917u16,
            60u8 => 34174u16,
            61u8 => 34429u16,
            62u8 => 34682u16,
            63u8 => 34933u16,
            64u8 => 35181u16,
            65u8 => 35428u16,
            66u8 => 35672u16,
            67u8 => 35914u16,
            68u8 => 36154u16,
            69u8 => 36393u16,
            70u8 => 36629u16,
            71u8 => 36863u16,
            72u8 => 37096u16,
            73u8 => 37327u16,
            74u8 => 37556u16,
            75u8 => 37784u16,
            76u8 => 38010u16,
            77u8 => 38234u16,
            78u8 => 38457u16,
            79u8 => 38678u16,
            80u8 => 38897u16,
            81u8 => 39115u16,
            82u8 => 39332u16,
            83u8 => 39547u16,
            84u8 => 39761u16,
            85u8 => 39973u16,
            86u8 => 40184u16,
            87u8 => 40394u16,
            88u8 => 40602u16,
            89u8 => 40809u16,
            90u8 => 41015u16,
            91u8 => 41219u16,
            92u8 => 41422u16,
            93u8 => 41624u16,
            94u8 => 41825u16,
            95u8 => 42025u16,
            96u8 => 42223u16,
            97u8 => 42421u16,
            98u8 => 42617u16,
            99u8 => 42812u16,
            100u8 => 43006u16,
            101u8 => 43199u16,
            102u8 => 43391u16,
            103u8 => 43582u16,
            104u8 => 43772u16,
            105u8 => 43961u16,
            106u8 => 44149u16,
            107u8 => 44336u16,
            108u8 => 44522u16,
            109u8 => 44707u16,
            110u8 => 44891u16,
            111u8 => 45074u16,
            112u8 => 45256u16,
            113u8 => 45438u16,
            114u8 => 45618u16,
            115u8 => 45798u16,
            116u8 => 45977u16,
            117u8 => 46154u16,
            118u8 => 46332u16,
            119u8 => 46508u16,
            120u8 => 46683u16,
            121u8 => 46858u16,
            122u8 => 47032u16,
            123u8 => 47205u16,
            124u8 => 47377u16,
            125u8 => 47549u16,
            126u8 => 47720u16,
            127u8 => 47890u16,
            128u8 => 48059u16,
            129u8 => 48228u16,
            130u8 => 48395u16,
            131u8 => 48563u16,
            132u8 => 48729u16,
            133u8 => 48895u16,
            134u8 => 49060u16,
            135u8 => 49224u16,
            136u8 => 49388u16,
            137u8 => 49551u16,
            138u8 => 49714u16,
            139u8 => 49875u16,
            140u8 => 50037u16,
            141u8 => 50197u16,
            142u8 => 50357u16,
            143u8 => 50516u16,
            144u8 => 50675u16,
            145u8 => 50833u16,
            146u8 => 50990u16,
            147u8 => 51147u16,
            148u8 => 51304u16,
            149u8 => 51459u16,
            150u8 => 51614u16,
            151u8 => 51769u16,
            152u8 => 51923u16,
            153u8 => 52076u16,
            154u8 => 52229u16,
            155u8 => 52382u16,
            156u8 => 52533u16,
            157u8 => 52685u16,
            158u8 => 52836u16,
            159u8 => 52986u16,
            160u8 => 53135u16,
            161u8 => 53285u16,
            162u8 => 53433u16,
            163u8 => 53581u16,
            164u8 => 53729u16,
            165u8 => 53876u16,
            166u8 => 54023u16,
            167u8 => 54169u16,
            168u8 => 54315u16,
            169u8 => 54460u16,
            170u8 => 54605u16,
            171u8 => 54749u16,
            172u8 => 54893u16,
            173u8 => 55037u16,
            174u8 => 55179u16,
            175u8 => 55322u16,
            176u8 => 55464u16,
            177u8 => 55606u16,
            178u8 => 55747u16,
            179u8 => 55887u16,
            180u8 => 56028u16,
            181u8 => 56168u16,
            182u8 => 56307u16,
            183u8 => 56446u16,
            184u8 => 56585u16,
            185u8 => 56723u16,
            186u8 => 56861u16,
            187u8 => 56998u16,
            188u8 => 57135u16,
            189u8 => 57271u16,
            190u8 => 57408u16,
            191u8 => 57543u16,
            192u8 => 57679u16,
            193u8 => 57814u16,
            194u8 => 57948u16,
            195u8 => 58083u16,
            196u8 => 58216u16,
            197u8 => 58350u16,
            198u8 => 58483u16,
            199u8 => 58616u16,
            200u8 => 58748u16,
            201u8 => 58880u16,
            202u8 => 59012u16,
            203u8 => 59143u16,
            204u8 => 59274u16,
            205u8 => 59405u16,
            206u8 => 59535u16,
            207u8 => 59665u16,
            208u8 => 59794u16,
            209u8 => 59923u16,
            210u8 => 60052u16,
            211u8 => 60181u16,
            212u8 => 60309u16,
            213u8 => 60437u16,
            214u8 => 60564u16,
            215u8 => 60691u16,
            216u8 => 60818u16,
            217u8 => 60945u16,
            218u8 => 61071u16,
            219u8 => 61197u16,
            220u8 => 61323u16,
            221u8 => 61448u16,
            222u8 => 61573u16,
            223u8 => 61697u16,
            224u8 => 61822u16,
            225u8 => 61946u16,
            226u8 => 62070u16,
            227u8 => 62193u16,
            228u8 => 62316u16,
            229u8 => 62439u16,
            230u8 => 62562u16,
            231u8 => 62684u16,
            232u8 => 62806u16,
            233u8 => 62927u16,
            234u8 => 63049u16,
            235u8 => 63170u16,
            236u8 => 63291u16,
            237u8 => 63411u16,
            238u8 => 63532u16,
            239u8 => 63652u16,
            240u8 => 63771u16,
            241u8 => 63891u16,
            242u8 => 64010u16,
            243u8 => 64129u16,
            244u8 => 64247u16,
            245u8 => 64366u16,
            246u8 => 64484u16,
            247u8 => 64602u16,
            248u8 => 64719u16,
            249u8 => 64837u16,
            250u8 => 64954u16,
            251u8 => 65070u16,
            252u8 => 65187u16,
            253u8 => 65303u16,
            254u8 => 65419u16,
            _ => 65535u16,
    }
}

} // verus!
