//! The precomputed constant conversion matrices between built-in linear
//! color-space pairs, and the lookup that serves them.
//!
//! The table is an optimization: for pairs it does not hold, the engine
//! derives the matrix on demand (see
//! [`crate::conversion::derived_conversion_matrix`]), and the two paths
//! agree within a small tolerance.

use vstd::prelude::*;
use crate::color::RgbPrimaries;
use crate::color::WhitePoint;
use crate::vecmat::Mat3;
use crate::vecmat::sp_mat_identity;

verus! {

/// The table entry for a (source, destination) pair of linear spaces:
/// the identity when the pair is trivial, a precomputed matrix when one
/// was derived offline, `None` otherwise.
pub open spec fn sp_const_conversion_matrix(
    src_primaries: RgbPrimaries,
    src_wp: WhitePoint,
    dst_primaries: RgbPrimaries,
    dst_wp: WhitePoint,
) -> Option<Mat3> {
    if src_primaries == dst_primaries && src_wp == dst_wp {
        Some(sp_mat_identity())
    } else {
        match (src_primaries, src_wp, dst_primaries, dst_wp) {
        (RgbPrimaries::Bt709, WhitePoint::D65, RgbPrimaries::Bt2020, WhitePoint::D65) => Some(
            (Mat3 { m00: 2694887513i64, m01: 1414111442i64, m02: 185968341i64, m10: 296821686i64, m11: 3949355913i64, m12: 48789697i64, m20: 70426993i64, m21: 378086575i64, m22: 3846453727i64 }),
        ),
        (RgbPrimaries::Bt709, WhitePoint::D65, RgbPrimaries::Bt709, WhitePoint::D65) => Some(
            (Mat3 { m00: 4294967296i64, m01: 0i64, m02: 0i64, m10: 0i64, m11: 4294967296i64, m12: 0i64, m20: 0i64, m21: 0i64, m22: 4294967296i64 }),
        ),
        (RgbPrimaries::Bt709, WhitePoint::D65, RgbPrimaries::Ap1, WhitePoint::D60) => Some(
            (Mat3 { m00: 2637728366i64, m01: 1438158434i64, m02: 219080496i64, m10: 303170440i64, m11: 3935896005i64, m12: 55900852i64, m20: 87283843i64, m21: 464675830i64, m22: 3743007622i64 }),
        ),
        (RgbPrimaries::Bt709, WhitePoint::D65, RgbPrimaries::Ap0, WhitePoint::D60) => Some(
            (Mat3 { m00: 1891120323i64, m01: 1630200033i64, m02: 773646940i64, m10: 387060208i64, m11: 3492591878i64, m12: 415315211i64, m20: 74063710i64, m21: 473276786i64, m22: 3747626800i64 }),
        ),
        (RgbPrimaries::Bt709, WhitePoint::D65, RgbPrimaries::CieRgb, WhitePoint::E) => Some(
            (Mat3 { m00: 3632965639i64, m01: 928619768i64, m02: -266618110i64, m10: 414360350i64, m11: 3501305403i64, m12: 379301544i64, m20: 68591765i64, m21: 439020240i64, m22: 3787355291i64 }),
        ),
        (RgbPrimaries::Bt709, WhitePoint::D65, RgbPrimaries::CieXyz, WhitePoint::D65) => Some(
            (Mat3 { m00: 1771486917i64, m01: 1535777559i64, m02: 774973090i64, m10: 913422942i64, m11: 3071555119i64, m12: 309989236i64, m20: 83038449i64, m21: 511925853i64, m22: 4081524939i64 }),
        ),
        (RgbPrimaries::Bt2020, WhitePoint::D65, RgbPrimaries::Bt709, WhitePoint::D65) => Some(
            (Mat3 { m00: 7131203308i64, m01: -2523465072i64, m02: -312770940i64, m10: -534996367i64, m11: 4865817303i64, m12: -35853640i64, m20: -77982028i64, m21: -432081148i64, m22: 4805030472i64 }),
        ),
        (RgbPrimaries::Bt2020, WhitePoint::D65, RgbPrimaries::Ap1, WhitePoint::D60) => Some(
            (Mat3 { m00: 4196465800i64, m01: 57495255i64, m02: 41006241i64, m10: 12088734i64, m11: 4275272871i64, m12: 7605691i64, m20: 19080850i64, m21: 98600736i64, m22: 4177285711i64 }),
        ),
        (RgbPrimaries::Bt2020, WhitePoint::D65, RgbPrimaries::Ap0, WhitePoint::D60) => Some(
            (Mat3 { m00: 2922835260i64, m01: 657933109i64, m02: 714198927i64, m10: 200069962i64, m11: 3687602282i64, m12: 407295051i64, m20: -4024601i64, m21: 115647516i64, m22: 4183344380i64 }),
        ),
        (RgbPrimaries::Bt2020, WhitePoint::D65, RgbPrimaries::CieRgb, WhitePoint::E) => Some(
            (Mat3 { m00: 5921209184i64, m01: -1055646479i64, m02: -570595409i64, m10: 244966597i64, m11: 3685057046i64, m12: 364943654i64, m20: -9564230i64, m21: 76056116i64, m22: 4228475410i64 }),
        ),
        (RgbPrimaries::Bt2020, WhitePoint::D65, RgbPrimaries::CieXyz, WhitePoint::D65) => Some(
            (Mat3 { m00: 2735937939i64, m01: 621116813i64, m02: 725182813i64, m10: 1128381184i64, m11: 2911941765i64, m12: 254644347i64, m20: 0i64, m21: 120569734i64, m22: 4555919507i64 }),
        ),
        (RgbPrimaries::Ap1, WhitePoint::D60, RgbPrimaries::Bt709, WhitePoint::D65) => Some(
            (Mat3 { m00: 7307917169i64, m01: -2624407923i64, m02: -388541950i64, m10: -561476900i64, m11: 4896711738i64, m12: -40267542i64, m20: -100710014i64, m21: -546703451i64, m22: 4942380761i64 }),
        ),
        (RgbPrimaries::Ap1, WhitePoint::D60, RgbPrimaries::Bt2020, WhitePoint::D65) => Some(
            (Mat3 { m00: 4396144054i64, m01: -58127934i64, m02: -43048825i64, m10: -12395306i64, m11: 4315097532i64, m12: -7734930i64, m20: -19787964i64, m21: -101588134i64, m22: 4416343394i64 }),
        ),
        (RgbPrimaries::Ap1, WhitePoint::D60, RgbPrimaries::Ap0, WhitePoint::D60) => Some(
            (Mat3 { m00: 2986499347i64, m01: 604566426i64, m02: 703901523i64, m10: 192264066i64, m11: 3692544417i64, m12: 410158813i64, m20: -23726857i64, m21: 17296081i64, m22: 4301398072i64 }),
        ),
        (RgbPrimaries::Ap1, WhitePoint::D60, RgbPrimaries::CieRgb, WhitePoint::E) => Some(
            (Mat3 { m00: 6066370879i64, m01: -1127235463i64, m02: -644168120i64, m10: 238420802i64, m11: 3690381352i64, m12: 366165142i64, m20: -29490653i64, m21: -23473384i64, m22: 4347931333i64 }),
        ),
        (RgbPrimaries::Ap1, WhitePoint::D60, RgbPrimaries::CieXyz, WhitePoint::D65) => Some(
            (Mat3 { m00: 2795254924i64, m01: 569847235i64, m02: 717135407i64, m10: 1145385422i64, m11: 2904295319i64, m12: 245286554i64, m20: -21338199i64, m21: 13374444i64, m22: 4684452996i64 }),
        ),
        (RgbPrimaries::Ap0, WhitePoint::D60, RgbPrimaries::Bt709, WhitePoint::D65) => Some(
            (Mat3 { m00: 10806139050i64, m01: -4813867170i64, m02: -1697304584i64, m10: -1190046992i64, m11: 5892339238i64, m12: -407324950i64, m20: -63272343i64, m21: -648990587i64, m22: 5007230227i64 }),
        ),
        (RgbPrimaries::Ap0, WhitePoint::D60, RgbPrimaries::Bt2020, WhitePoint::D65) => Some(
            (Mat3 { m00: 6385777022i64, m01: -1108529486i64, m02: -982280240i64, m10: -348200499i64, m11: 5078134264i64, m12: -434966469i64, m20: 15769375i64, m21: -141450225i64, m22: 4420648146i64 }),
        ),
        (RgbPrimaries::Ap0, WhitePoint::D60, RgbPrimaries::Ap1, WhitePoint::D60) => Some(
            (Mat3 { m00: 6234813864i64, m01: -1016477540i64, m02: -923369028i64, m10: -328602327i64, m11: 5051478071i64, m12: -427908447i64, m20: 35713056i64, m21: -25919153i64, m22: 4285173392i64 }),
        ),
        (RgbPrimaries::Ap0, WhitePoint::D60, RgbPrimaries::CieRgb, WhitePoint::E) => Some(
            (Mat3 { m00: 8887169009i64, m01: -2757608583i64, m02: -1834593130i64, m10: 66803371i64, m11: 4281764941i64, m12: -53601016i64, m20: -4860900i64, m21: -46867271i64, m22: 4346695467i64 }),
        ),
        (RgbPrimaries::Ap0, WhitePoint::D60, RgbPrimaries::CieXyz, WhitePoint::D65) => Some(
            (Mat3 { m00: 4020112595i64, m01: 4346814i64, m02: 57778158i64, m10: 1442541052i64, m11: 3143299357i64, m12: -290873113i64, m20: 6952686i64, m21: -7489356i64, m22: 4677025911i64 }),
        ),
        (RgbPrimaries::CieRgb, WhitePoint::E, RgbPrimaries::Bt709, WhitePoint::D65) => Some(
            (Mat3 { m00: 5233561184i64, m01: -1452486108i64, m02: 513892220i64, m10: -616841285i64, m11: 5506728083i64, m12: -594919502i64, m20: -23280993i64, m21: -612019819i64, m22: 4930268108i64 }),
        ),
        (RgbPrimaries::CieRgb, WhitePoint::E, RgbPrimaries::Bt2020, WhitePoint::D65) => Some(
            (Mat3 { m00: 3079708395i64, m01: 875216026i64, m02: 340042876i64, m10: -205782056i64, m11: 4956275104i64, m12: -455525752i64, m20: 10667207i64, m21: -87167178i64, m22: 4371467267i64 }),
        ),
        (RgbPrimaries::CieRgb, WhitePoint::E, RgbPrimaries::Ap1, WhitePoint::D60) => Some(
            (Mat3 { m00: 3006424960i64, m01: 920659402i64, m02: 367882934i64, m10: -196151326i64, m11: 4935857323i64, m12: -444738700i64, m20: 19332665i64, m21: 32891992i64, m22: 4242742639i64 }),
        ),
        (RgbPrimaries::CieRgb, WhitePoint::E, RgbPrimaries::Ap0, WhitePoint::D60) => Some(
            (Mat3 { m00: 2066071137i64, m01: 1340348983i64, m02: 888547176i64, m10: -32209916i64, m11: 4287895994i64, m12: 39281218i64, m20: 1963186i64, m21: 47732188i64, m22: 4245271922i64 }),
        ),
        (RgbPrimaries::CieRgb, WhitePoint::E, RgbPrimaries::CieXyz, WhitePoint::D65) => Some(
            (Mat3 { m00: 1933847559i64, m01: 1259555665i64, m02: 888834342i64, m10: 670220700i64, m11: 3585071569i64, m12: 39675028i64, m20: 5538540i64, m21: 46670932i64, m22: 4624279769i64 }),
        ),
        (RgbPrimaries::CieXyz, WhitePoint::D65, RgbPrimaries::Bt709, WhitePoint::D65) => Some(
            (Mat3 { m00: 13917644650i64, m01: -6601959642i64, m02: -2141176100i64, m10: -4162965902i64, m11: 8057405228i64, m12: 178481736i64, m20: 238986716i64, m21: -876284626i64, m22: 4540747608i64 }),
        ),
        (RgbPrimaries::CieXyz, WhitePoint::D65, RgbPrimaries::Bt2020, WhitePoint::D65) => Some(
            (Mat3 { m00: 7372357190i64, m01: -1527469342i64, m02: -1088110817i64, m10: -2863424637i64, m11: 6942824119i64, m12: 67726267i64, m20: 75778851i64, m21: -183737763i64, m22: 4047169470i64 }),
        ),
        (RgbPrimaries::CieXyz, WhitePoint::D65, RgbPrimaries::Ap1, WhitePoint::D60) => Some(
            (Mat3 { m00: 7165670136i64, m01: -1401251136i64, m02: -1023608884i64, m10: -2829409868i64, m11: 6906363410i64, m12: 71519965i64, m20: 40718582i64, m21: -26101009i64, m22: 3932998278i64 }),
        ),
        (RgbPrimaries::CieXyz, WhitePoint::D65, RgbPrimaries::Ap0, WhitePoint::D60) => Some(
            (Mat3 { m00: 4591039578i64, m01: -6484963i64, m02: -57119228i64, m10: -2107890241i64, m11: 5872440024i64, m12: 391258240i64, m20: -10200242i64, m21: 9413222i64, m22: 3944829862i64 }),
        ),
        (RgbPrimaries::CieXyz, WhitePoint::D65, RgbPrimaries::CieRgb, WhitePoint::E) => Some(
            (Mat3 { m00: 10857543482i64, m01: -3787873640i64, m02: -2054433123i64, m10: -2029875030i64, m11: 5854170313i64, m12: 339935806i64, m20: 7482509i64, m21: -54546936i64, m22: 3988136193i64 }),
        ),
            _ => None,
        }
    }
}

/// The precomputed conversion matrix for a pair of linear spaces, if the
/// table holds one; the identity for a pair with equal primaries and
/// white point.
pub fn const_conversion_matrix(
    src_primaries: RgbPrimaries,
    src_wp: WhitePoint,
    dst_primaries: RgbPrimaries,
    dst_wp: WhitePoint,
) -> (r: Option<Mat3>)
    ensures
        r == sp_const_conversion_matrix(src_primaries, src_wp, dst_primaries, dst_wp),
{
    if src_primaries == dst_primaries && src_wp == dst_wp {
        return Some(Mat3::identity());
    }
    match (src_primaries, src_wp, dst_primaries, dst_wp) {
        (RgbPrimaries::Bt709, WhitePoint::D65, RgbPrimaries::Bt2020, WhitePoint::D65) => Some(
            (Mat3 { m00: 2694887513i64, m01: 1414111442i64, m02: 185968341i64, m10: 296821686i64, m11: 3949355913i64, m12: 48789697i64, m20: 70426993i64, m21: 378086575i64, m22: 3846453727i64 }),
        ),
        (RgbPrimaries::Bt709, WhitePoint::D65, RgbPrimaries::Bt709, WhitePoint::D65) => Some(
            (Mat3 { m00: 4294967296i64, m01: 0i64, m02: 0i64, m10: 0i64, m11: 4294967296i64, m12: 0i64, m20: 0i64, m21: 0i64, m22: 4294967296i64 }),
        ),
        (RgbPrimaries::Bt709, WhitePoint::D65, RgbPrimaries::Ap1, WhitePoint::D60) => Some(
            (Mat3 { m00: 2637728366i64, m01: 1438158434i64, m02: 219080496i64, m10: 303170440i64, m11: 3935896005i64, m12: 55900852i64, m20: 87283843i64, m21: 464675830i64, m22: 3743007622i64 }),
        ),
        (RgbPrimaries::Bt709, WhitePoint::D65, RgbPrimaries::Ap0, WhitePoint::D60) => Some(
            (Mat3 { m00: 1891120323i64, m01: 1630200033i64, m02: 773646940i64, m10: 387060208i64, m11: 3492591878i64, m12: 415315211i64, m20: 74063710i64, m21: 473276786i64, m22: 3747626800i64 }),
        ),
        (RgbPrimaries::Bt709, WhitePoint::D65, RgbPrimaries::CieRgb, WhitePoint::E) => Some(
            (Mat3 { m00: 3632965639i64, m01: 928619768i64, m02: -266618110i64, m10: 414360350i64, m11: 3501305403i64, m12: 379301544i64, m20: 68591765i64, m21: 439020240i64, m22: 3787355291i64 }),
        ),
        (RgbPrimaries::Bt709, WhitePoint::D65, RgbPrimaries::CieXyz, WhitePoint::D65) => Some(
            (Mat3 { m00: 1771486917i64, m01: 1535777559i64, m02: 774973090i64, m10: 913422942i64, m11: 3071555119i64, m12: 309989236i64, m20: 83038449i64, m21: 511925853i64, m22: 4081524939i64 }),
        ),
        (RgbPrimaries::Bt2020, WhitePoint::D65, RgbPrimaries::Bt709, WhitePoint::D65) => Some(
            (Mat3 { m00: 7131203308i64, m01: -2523465072i64, m02: -312770940i64, m10: -534996367i64, m11: 4865817303i64, m12: -35853640i64, m20: -77982028i64, m21: -432081148i64, m22: 4805030472i64 }),
        ),
        (RgbPrimaries::Bt2020, WhitePoint::D65, RgbPrimaries::Ap1, WhitePoint::D60) => Some(
            (Mat3 { m00: 4196465800i64, m01: 57495255i64, m02: 41006241i64, m10: 12088734i64, m11: 4275272871i64, m12: 7605691i64, m20: 19080850i64, m21: 98600736i64, m22: 4177285711i64 }),
        ),
        (RgbPrimaries::Bt2020, WhitePoint::D65, RgbPrimaries::Ap0, WhitePoint::D60) => Some(
            (Mat3 { m00: 2922835260i64, m01: 657933109i64, m02: 714198927i64, m10: 200069962i64, m11: 3687602282i64, m12: 407295051i64, m20: -4024601i64, m21: 115647516i64, m22: 4183344380i64 }),
        ),
        (RgbPrimaries::Bt2020, WhitePoint::D65, RgbPrimaries::CieRgb, WhitePoint::E) => Some(
            (Mat3 { m00: 5921209184i64, m01: -1055646479i64, m02: -570595409i64, m10: 244966597i64, m11: 3685057046i64, m12: 364943654i64, m20: -9564230i64, m21: 76056116i64, m22: 4228475410i64 }),
        ),
        (RgbPrimaries::Bt2020, WhitePoint::D65, RgbPrimaries::CieXyz, WhitePoint::D65) => Some(
            (Mat3 { m00: 2735937939i64, m01: 621116813i64, m02: 725182813i64, m10: 1128381184i64, m11: 2911941765i64, m12: 254644347i64, m20: 0i64, m21: 120569734i64, m22: 4555919507i64 }),
        ),
        (RgbPrimaries::Ap1, WhitePoint::D60, RgbPrimaries::Bt709, WhitePoint::D65) => Some(
            (Mat3 { m00: 7307917169i64, m01: -2624407923i64, m02: -388541950i64, m10: -561476900i64, m11: 4896711738i64, m12: -40267542i64, m20: -100710014i64, m21: -546703451i64, m22: 4942380761i64 }),
        ),
        (RgbPrimaries::Ap1, WhitePoint::D60, RgbPrimaries::Bt2020, WhitePoint::D65) => Some(
            (Mat3 { m00: 4396144054i64, m01: -58127934i64, m02: -43048825i64, m10: -12395306i64, m11: 4315097532i64, m12: -7734930i64, m20: -19787964i64, m21: -101588134i64, m22: 4416343394i64 }),
        ),
        (RgbPrimaries::Ap1, WhitePoint::D60, RgbPrimaries::Ap0, WhitePoint::D60) => Some(
            (Mat3 { m00: 2986499347i64, m01: 604566426i64, m02: 703901523i64, m10: 192264066i64, m11: 3692544417i64, m12: 410158813i64, m20: -23726857i64, m21: 17296081i64, m22: 4301398072i64 }),
        ),
        (RgbPrimaries::Ap1, WhitePoint::D60, RgbPrimaries::CieRgb, WhitePoint::E) => Some(
            (Mat3 { m00: 6066370879i64, m01: -1127235463i64, m02: -644168120i64, m10: 238420802i64, m11: 3690381352i64, m12: 366165142i64, m20: -29490653i64, m21: -23473384i64, m22: 4347931333i64 }),
        ),
        (RgbPrimaries::Ap1, WhitePoint::D60, RgbPrimaries::CieXyz, WhitePoint::D65) => Some(
            (Mat3 { m00: 2795254924i64, m01: 569847235i64, m02: 717135407i64, m10: 1145385422i64, m11: 2904295319i64, m12: 245286554i64, m20: -21338199i64, m21: 13374444i64, m22: 4684452996i64 }),
        ),
        (RgbPrimaries::Ap0, WhitePoint::D60, RgbPrimaries::Bt709, WhitePoint::D65) => Some(
            (Mat3 { m00: 10806139050i64, m01: -4813867170i64, m02: -1697304584i64, m10: -1190046992i64, m11: 5892339238i64, m12: -407324950i64, m20: -63272343i64, m21: -648990587i64, m22: 5007230227i64 }),
        ),
        (RgbPrimaries::Ap0, WhitePoint::D60, RgbPrimaries::Bt2020, WhitePoint::D65) => Some(
            (Mat3 { m00: 6385777022i64, m01: -1108529486i64, m02: -982280240i64, m10: -348200499i64, m11: 5078134264i64, m12: -434966469i64, m20: 15769375i64, m21: -141450225i64, m22: 4420648146i64 }),
        ),
        (RgbPrimaries::Ap0, WhitePoint::D60, RgbPrimaries::Ap1, WhitePoint::D60) => Some(
            (Mat3 { m00: 6234813864i64, m01: -1016477540i64, m02: -923369028i64, m10: -328602327i64, m11: 5051478071i64, m12: -427908447i64, m20: 35713056i64, m21: -25919153i64, m22: 4285173392i64 }),
        ),
        (RgbPrimaries::Ap0, WhitePoint::D60, RgbPrimaries::CieRgb, WhitePoint::E) => Some(
            (Mat3 { m00: 8887169009i64, m01: -2757608583i64, m02: -1834593130i64, m10: 66803371i64, m11: 4281764941i64, m12: -53601016i64, m20: -4860900i64, m21: -46867271i64, m22: 4346695467i64 }),
        ),
        (RgbPrimaries::Ap0, WhitePoint::D60, RgbPrimaries::CieXyz, WhitePoint::D65) => Some(
            (Mat3 { m00: 4020112595i64, m01: 4346814i64, m02: 57778158i64, m10: 1442541052i64, m11: 3143299357i64, m12: -290873113i64, m20: 6952686i64, m21: -7489356i64, m22: 4677025911i64 }),
        ),
        (RgbPrimaries::CieRgb, WhitePoint::E, RgbPrimaries::Bt709, WhitePoint::D65) => Some(
            (Mat3 { m00: 5233561184i64, m01: -1452486108i64, m02: 513892220i64, m10: -616841285i64, m11: 5506728083i64, m12: -594919502i64, m20: -23280993i64, m21: -612019819i64, m22: 4930268108i64 }),
        ),
        (RgbPrimaries::CieRgb, WhitePoint::E, RgbPrimaries::Bt2020, WhitePoint::D65) => Some(
            (Mat3 { m00: 3079708395i64, m01: 875216026i64, m02: 340042876i64, m10: -205782056i64, m11: 4956275104i64, m12: -455525752i64, m20: 10667207i64, m21: -87167178i64, m22: 4371467267i64 }),
        ),
        (RgbPrimaries::CieRgb, WhitePoint::E, RgbPrimaries::Ap1, WhitePoint::D60) => Some(
            (Mat3 { m00: 3006424960i64, m01: 920659402i64, m02: 367882934i64, m10: -196151326i64, m11: 4935857323i64, m12: -444738700i64, m20: 19332665i64, m21: 32891992i64, m22: 4242742639i64 }),
        ),
        (RgbPrimaries::CieRgb, WhitePoint::E, RgbPrimaries::Ap0, WhitePoint::D60) => Some(
            (Mat3 { m00: 2066071137i64, m01: 1340348983i64, m02: 888547176i64, m10: -32209916i64, m11: 4287895994i64, m12: 39281218i64, m20: 1963186i64, m21: 47732188i64, m22: 4245271922i64 }),
        ),
        (RgbPrimaries::CieRgb, WhitePoint::E, RgbPrimaries::CieXyz, WhitePoint::D65) => Some(
            (Mat3 { m00: 1933847559i64, m01: 1259555665i64, m02: 888834342i64, m10: 670220700i64, m11: 3585071569i64, m12: 39675028i64, m20: 5538540i64, m21: 46670932i64, m22: 4624279769i64 }),
        ),
        (RgbPrimaries::CieXyz, WhitePoint::D65, RgbPrimaries::Bt709, WhitePoint::D65) => Some(
            (Mat3 { m00: 13917644650i64, m01: -6601959642i64, m02: -2141176100i64, m10: -4162965902i64, m11: 8057405228i64, m12: 178481736i64, m20: 238986716i64, m21: -876284626i64, m22: 4540747608i64 }),
        ),
        (RgbPrimaries::CieXyz, WhitePoint::D65, RgbPrimaries::Bt2020, WhitePoint::D65) => Some(
            (Mat3 { m00: 7372357190i64, m01: -1527469342i64, m02: -1088110817i64, m10: -2863424637i64, m11: 6942824119i64, m12: 67726267i64, m20: 75778851i64, m21: -183737763i64, m22: 4047169470i64 }),
        ),
        (RgbPrimaries::CieXyz, WhitePoint::D65, RgbPrimaries::Ap1, WhitePoint::D60) => Some(
            (Mat3 { m00: 7165670136i64, m01: -1401251136i64, m02: -1023608884i64, m10: -2829409868i64, m11: 6906363410i64, m12: 71519965i64, m20: 40718582i64, m21: -26101009i64, m22: 3932998278i64 }),
        ),
        (RgbPrimaries::CieXyz, WhitePoint::D65, RgbPrimaries::Ap0, WhitePoint::D60) => Some(
            (Mat3 { m00: 4591039578i64, m01: -6484963i64, m02: -57119228i64, m10: -2107890241i64, m11: 5872440024i64, m12: 391258240i64, m20: -10200242i64, m21: 9413222i64, m22: 3944829862i64 }),
        ),
        (RgbPrimaries::CieXyz, WhitePoint::D65, RgbPrimaries::CieRgb, WhitePoint::E) => Some(
            (Mat3 { m00: 10857543482i64, m01: -3787873640i64, m02: -2054433123i64, m10: -2029875030i64, m11: 5854170313i64, m12: 339935806i64, m20: 7482509i64, m21: -54546936i64, m22: 3988136193i64 }),
        ),
        _ => None,
    }
}

} // verus!
