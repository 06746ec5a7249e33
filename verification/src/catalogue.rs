//! The station catalogues of the arrays the simulator knows, and the choice
//! of catalogue by array name.

use vstd::prelude::*;

use crate::names::names_equal;
use crate::names::name_lt;
use crate::table::{
    entries_view, lemma_table_of_ordered, lemma_table_of_ordered_list, list_in_name_order, masked,
    names_increasing, table_of, AntennaTable, Position,
};

verus! {

/// The LOFAR core, remote and international high-band stations. Listed in name order; positions are earth-fixed, in units of 10⁻⁸ m.
pub open spec fn lofar_stations() -> Seq<(&'static str, Position)> {
    seq![
        ("BG", Position { x: 476_918_200_000_000, y: 168_077_500_000_000, z: 387_550_400_000_000 }),
        ("CS001HBA0", Position { x: 382_689_625_000_000, y: 46_097_947_000_000, z: 506_465_800_000_000 }),
        ("CS001HBA1", Position { x: 382_697_950_000_000, y: 46_089_759_000_000, z: 506_460_300_000_000 }),
        ("CS002HBA0", Position { x: 382_660_100_000_000, y: 46_095_341_000_000, z: 506_488_100_000_000 }),
        ("CS002HBA1", Position { x: 382_656_550_000_000, y: 46_095_812_000_000, z: 506_490_750_000_000 }),
        ("CS003HBA0", Position { x: 382_647_125_000_000, y: 46_100_012_000_000, z: 506_497_400_000_000 }),
        ("CS003HBA1", Position { x: 382_651_775_000_000, y: 46_103_525_000_000, z: 506_493_600_000_000 }),
        ("CS004HBA0", Position { x: 382_658_575_000_000, y: 46_086_584_000_000, z: 506_490_050_000_000 }),
        ("CS004HBA1", Position { x: 382_657_950_000_000, y: 46_091_747_000_000, z: 506_490_050_000_000 }),
        ("CS005HBA0", Position { x: 382_670_125_000_000, y: 46_098_925_000_000, z: 506_480_250_000_000 }),
        ("CS005HBA1", Position { x: 382_663_125_000_000, y: 46_102_181_000_000, z: 506_485_250_000_000 }),
        ("CS006HBA0", Position { x: 382_665_375_000_000, y: 46_113_644_000_000, z: 506_482_500_000_000 }),
        ("CS006HBA1", Position { x: 382_661_250_000_000, y: 46_108_031_000_000, z: 506_486_100_000_000 }),
        ("CS007HBA0", Position { x: 382_647_875_000_000, y: 46_108_372_000_000, z: 506_496_100_000_000 }),
        ("CS007HBA1", Position { x: 382_653_800_000_000, y: 46_116_972_000_000, z: 506_490_900_000_000 }),
        ("CS011HBA0", Position { x: 382_663_750_000_000, y: 46_122_734_000_000, z: 506_482_900_000_000 }),
        ("CS011HBA1", Position { x: 382_664_900_000_000, y: 46_135_425_000_000, z: 506_480_900_000_000 }),
        ("CS013HBA0", Position { x: 382_631_900_000_000, y: 46_085_612_000_000, z: 506_510_200_000_000 }),
        ("CS013HBA1", Position { x: 382_640_200_000_000, y: 46_077_428_000_000, z: 506_504_700_000_000 }),
        ("CS017HBA0", Position { x: 382_640_500_000_000, y: 46_150_747_000_000, z: 506_497_800_000_000 }),
        ("CS017HBA1", Position { x: 382_649_975_000_000, y: 46_155_250_000_000, z: 506_490_300_000_000 }),
        ("CS021HBA0", Position { x: 382_646_350_000_000, y: 46_053_309_000_000, z: 506_502_250_000_000 }),
        ("CS021HBA1", Position { x: 382_636_875_000_000, y: 46_048_806_000_000, z: 506_509_800_000_000 }),
        ("CS024HBA0", Position { x: 382_721_825_000_000, y: 46_140_391_000_000, z: 506_437_900_000_000 }),
        ("CS024HBA1", Position { x: 382_712_350_000_000, y: 46_135_888_000_000, z: 506_445_400_000_000 }),
        ("CS028HBA0", Position { x: 382_557_325_000_000, y: 46_132_459_000_000, z: 506_561_900_000_000 }),
        ("CS028HBA1", Position { x: 382_565_625_000_000, y: 46_124_275_000_000, z: 506_556_400_000_000 }),
        ("CS030HBA0", Position { x: 382_604_150_000_000, y: 46_032_338_000_000, z: 506_535_750_000_000 }),
        ("CS030HBA1", Position { x: 382_595_850_000_000, y: 46_040_522_000_000, z: 506_541_250_000_000 }),
        ("CS031HBA0", Position { x: 382_638_300_000_000, y: 46_027_934_000_000, z: 506_510_600_000_000 }),
        ("CS031HBA1", Position { x: 382_647_775_000_000, y: 46_032_438_000_000, z: 506_503_050_000_000 }),
        ("CS032HBA0", Position { x: 382_686_425_000_000, y: 46_045_194_000_000, z: 506_473_000_000_000 }),
        ("CS032HBA1", Position { x: 382_694_750_000_000, y: 46_037_006_000_000, z: 506_467_500_000_000 }),
        ("CS101HBA0", Position { x: 382_590_000_000_000, y: 46_169_891_000_000, z: 506_533_900_000_000 }),
        ("CS101HBA1", Position { x: 382_580_525_000_000, y: 46_165_388_000_000, z: 506_541_450_000_000 }),
        ("CS103HBA0", Position { x: 382_633_150_000_000, y: 46_275_906_000_000, z: 506_491_950_000_000 }),
        ("CS103HBA1", Position { x: 382_624_850_000_000, y: 46_284_094_000_000, z: 506_497_450_000_000 }),
        ("CS201HBA0", Position { x: 382_667_925_000_000, y: 46_185_525_000_000, z: 506_474_150_000_000 }),
        ("CS201HBA1", Position { x: 382_669_075_000_000, y: 46_198_212_000_000, z: 506_472_100_000_000 }),
        ("CS301HBA0", Position { x: 382_744_250_000_000, y: 46_105_081_000_000, z: 506_424_250_000_000 }),
        ("CS301HBA1", Position { x: 382_743_100_000_000, y: 46_092_391_000_000, z: 506_426_250_000_000 }),
        ("CS302HBA0", Position { x: 382_797_325_000_000, y: 45_972_862_000_000, z: 506_397_550_000_000 }),
        ("CS302HBA1", Position { x: 382_789_000_000_000, y: 45_981_047_000_000, z: 506_403_050_000_000 }),
        ("CS401HBA0", Position { x: 382_679_575_000_000, y: 46_015_891_000_000, z: 506_480_900_000_000 }),
        ("CS401HBA1", Position { x: 382_678_425_000_000, y: 46_003_200_000_000, z: 506_482_900_000_000 }),
        ("CS501HBA0", Position { x: 382_556_875_000_000, y: 46_064_762_000_000, z: 506_568_300_000_000 }),
        ("CS501HBA1", Position { x: 382_566_350_000_000, y: 46_069_266_000_000, z: 506_560_800_000_000 }),
        ("CZ", Position { x: 407_459_800_000_000, y: 103_723_200_000_000, z: 478_139_300_000_000 }),
        ("CZ-Ondrejov", Position { x: 397_975_700_000_000, y: 104_992_800_000_000, z: 485_667_400_000_000 }),
        ("DE601HBA", Position { x: 403_410_150_000_000, y: 48_701_275_000_000, z: 490_023_050_000_000 }),
        ("DE602HBA", Position { x: 415_256_800_000_000, y: 82_878_912_000_000, z: 475_436_200_000_000 }),
        ("DE603HBA", Position { x: 394_029_575_000_000, y: 81_672_288_000_000, z: 493_239_450_000_000 }),
        ("DE604HBA", Position { x: 379_637_975_000_000, y: 87_761_412_000_000, z: 503_271_250_000_000 }),
        ("DE605HBA", Position { x: 400_571_800_000_000, y: 45_102_847_000_000, z: 492_642_450_000_000 }),
        ("DE609HBA", Position { x: 372_721_775_000_000, y: 65_510_919_000_000, z: 511_700_300_000_000 }),
        ("FR606HBA", Position { x: 432_401_650_000_000, y: 16_554_553_000_000, z: 467_027_150_000_000 }),
        ("GMRT", Position { x: 602_038_200_000_000, y: 200_412_800_000_000, z: 57_280_600_000_000 }),
        ("IE613HBA", Position { x: 380_169_200_000_000, y: (-52_898_394_000_000) as i64, z: 507_695_800_000_000 }),
        ("IT", Position { x: 454_229_400_000_000, y: 90_171_900_000_000, z: 437_539_700_000_000 }),
        ("IT-NOTO", Position { x: 493_453_700_000_000, y: 132_095_000_000_000, z: 380_651_000_000_000 }),
        ("LV614HBA", Position { x: 318_324_920_000_000, y: 127_680_180_000_000, z: 535_947_000_000_000 }),
        ("PL610HBA", Position { x: 373_846_250_000_000, y: 114_824_438_000_000, z: 502_171_050_000_000 }),
        ("PL611HBA", Position { x: 385_098_100_000_000, y: 143_899_488_000_000, z: 486_049_900_000_000 }),
        ("PL612HBA", Position { x: 355_148_175_000_000, y: 133_420_362_000_000, z: 511_015_750_000_000 }),
        ("RS106HBA", Position { x: 382_920_550_000_000, y: 46_914_253_000_000, z: 506_218_100_000_000 }),
        ("RS205HBA", Position { x: 383_147_975_000_000, y: 46_348_753_000_000, z: 506_099_000_000_000 }),
        ("RS208HBA", Position { x: 384_775_325_000_000, y: 46_696_281_000_000, z: 504_839_700_000_000 }),
        ("RS210HBA", Position { x: 387_782_750_000_000, y: 46_753_659_000_000, z: 502_544_550_000_000 }),
        ("RS305HBA", Position { x: 382_873_275_000_000, y: 45_469_241_000_000, z: 506_385_050_000_000 }),
        ("RS306HBA", Position { x: 382_977_125_000_000, y: 45_276_169_000_000, z: 506_324_300_000_000 }),
        ("RS307HBA", Position { x: 383_796_450_000_000, y: 44_962_725_000_000, z: 505_735_750_000_000 }),
        ("RS310HBA", Position { x: 384_537_625_000_000, y: 41_361_656_000_000, z: 505_479_650_000_000 }),
        ("RS406HBA", Position { x: 381_842_500_000_000, y: 45_202_028_000_000, z: 507_181_750_000_000 }),
        ("RS407HBA", Position { x: 381_164_950_000_000, y: 45_345_991_000_000, z: 507_672_900_000_000 }),
        ("RS409HBA", Position { x: 382_481_250_000_000, y: 42_613_034_000_000, z: 506_925_200_000_000 }),
        ("RS503HBA", Position { x: 382_413_850_000_000, y: 45_947_697_000_000, z: 506_685_850_000_000 }),
        ("RS508HBA", Position { x: 379_713_650_000_000, y: 46_311_444_000_000, z: 508_665_150_000_000 }),
        ("RS509HBA", Position { x: 378_353_750_000_000, y: 45_013_006_000_000, z: 509_786_600_000_000 }),
        ("SE607HBA", Position { x: 337_027_175_000_000, y: 71_212_588_000_000, z: 534_999_100_000_000 }),
        ("UK608HBA", Position { x: 400_846_200_000_000, y: (-10_037_661_000_000) as i64, z: 494_371_700_000_000 }),
    ]
}

fn lofar_station_list() -> (r: Vec<(&'static str, Position)>)
    ensures
        r@ == lofar_stations(),
{
    vec![
        ("BG", Position { x: 476_918_200_000_000, y: 168_077_500_000_000, z: 387_550_400_000_000 }),
        ("CS001HBA0", Position { x: 382_689_625_000_000, y: 46_097_947_000_000, z: 506_465_800_000_000 }),
        ("CS001HBA1", Position { x: 382_697_950_000_000, y: 46_089_759_000_000, z: 506_460_300_000_000 }),
        ("CS002HBA0", Position { x: 382_660_100_000_000, y: 46_095_341_000_000, z: 506_488_100_000_000 }),
        ("CS002HBA1", Position { x: 382_656_550_000_000, y: 46_095_812_000_000, z: 506_490_750_000_000 }),
        ("CS003HBA0", Position { x: 382_647_125_000_000, y: 46_100_012_000_000, z: 506_497_400_000_000 }),
        ("CS003HBA1", Position { x: 382_651_775_000_000, y: 46_103_525_000_000, z: 506_493_600_000_000 }),
        ("CS004HBA0", Position { x: 382_658_575_000_000, y: 46_086_584_000_000, z: 506_490_050_000_000 }),
        ("CS004HBA1", Position { x: 382_657_950_000_000, y: 46_091_747_000_000, z: 506_490_050_000_000 }),
        ("CS005HBA0", Position { x: 382_670_125_000_000, y: 46_098_925_000_000, z: 506_480_250_000_000 }),
        ("CS005HBA1", Position { x: 382_663_125_000_000, y: 46_102_181_000_000, z: 506_485_250_000_000 }),
        ("CS006HBA0", Position { x: 382_665_375_000_000, y: 46_113_644_000_000, z: 506_482_500_000_000 }),
        ("CS006HBA1", Position { x: 382_661_250_000_000, y: 46_108_031_000_000, z: 506_486_100_000_000 }),
        ("CS007HBA0", Position { x: 382_647_875_000_000, y: 46_108_372_000_000, z: 506_496_100_000_000 }),
        ("CS007HBA1", Position { x: 382_653_800_000_000, y: 46_116_972_000_000, z: 506_490_900_000_000 }),
        ("CS011HBA0", Position { x: 382_663_750_000_000, y: 46_122_734_000_000, z: 506_482_900_000_000 }),
        ("CS011HBA1", Position { x: 382_664_900_000_000, y: 46_135_425_000_000, z: 506_480_900_000_000 }),
        ("CS013HBA0", Position { x: 382_631_900_000_000, y: 46_085_612_000_000, z: 506_510_200_000_000 }),
        ("CS013HBA1", Position { x: 382_640_200_000_000, y: 46_077_428_000_000, z: 506_504_700_000_000 }),
        ("CS017HBA0", Position { x: 382_640_500_000_000, y: 46_150_747_000_000, z: 506_497_800_000_000 }),
        ("CS017HBA1", Position { x: 382_649_975_000_000, y: 46_155_250_000_000, z: 506_490_300_000_000 }),
        ("CS021HBA0", Position { x: 382_646_350_000_000, y: 46_053_309_000_000, z: 506_502_250_000_000 }),
        ("CS021HBA1", Position { x: 382_636_875_000_000, y: 46_048_806_000_000, z: 506_509_800_000_000 }),
        ("CS024HBA0", Position { x: 382_721_825_000_000, y: 46_140_391_000_000, z: 506_437_900_000_000 }),
        ("CS024HBA1", Position { x: 382_712_350_000_000, y: 46_135_888_000_000, z: 506_445_400_000_000 }),
        ("CS028HBA0", Position { x: 382_557_325_000_000, y: 46_132_459_000_000, z: 506_561_900_000_000 }),
        ("CS028HBA1", Position { x: 382_565_625_000_000, y: 46_124_275_000_000, z: 506_556_400_000_000 }),
        ("CS030HBA0", Position { x: 382_604_150_000_000, y: 46_032_338_000_000, z: 506_535_750_000_000 }),
        ("CS030HBA1", Position { x: 382_595_850_000_000, y: 46_040_522_000_000, z: 506_541_250_000_000 }),
        ("CS031HBA0", Position { x: 382_638_300_000_000, y: 46_027_934_000_000, z: 506_510_600_000_000 }),
        ("CS031HBA1", Position { x: 382_647_775_000_000, y: 46_032_438_000_000, z: 506_503_050_000_000 }),
        ("CS032HBA0", Position { x: 382_686_425_000_000, y: 46_045_194_000_000, z: 506_473_000_000_000 }),
        ("CS032HBA1", Position { x: 382_694_750_000_000, y: 46_037_006_000_000, z: 506_467_500_000_000 }),
        ("CS101HBA0", Position { x: 382_590_000_000_000, y: 46_169_891_000_000, z: 506_533_900_000_000 }),
        ("CS101HBA1", Position { x: 382_580_525_000_000, y: 46_165_388_000_000, z: 506_541_450_000_000 }),
        ("CS103HBA0", Position { x: 382_633_150_000_000, y: 46_275_906_000_000, z: 506_491_950_000_000 }),
        ("CS103HBA1", Position { x: 382_624_850_000_000, y: 46_284_094_000_000, z: 506_497_450_000_000 }),
        ("CS201HBA0", Position { x: 382_667_925_000_000, y: 46_185_525_000_000, z: 506_474_150_000_000 }),
        ("CS201HBA1", Position { x: 382_669_075_000_000, y: 46_198_212_000_000, z: 506_472_100_000_000 }),
        ("CS301HBA0", Position { x: 382_744_250_000_000, y: 46_105_081_000_000, z: 506_424_250_000_000 }),
        ("CS301HBA1", Position { x: 382_743_100_000_000, y: 46_092_391_000_000, z: 506_426_250_000_000 }),
        ("CS302HBA0", Position { x: 382_797_325_000_000, y: 45_972_862_000_000, z: 506_397_550_000_000 }),
        ("CS302HBA1", Position { x: 382_789_000_000_000, y: 45_981_047_000_000, z: 506_403_050_000_000 }),
        ("CS401HBA0", Position { x: 382_679_575_000_000, y: 46_015_891_000_000, z: 506_480_900_000_000 }),
        ("CS401HBA1", Position { x: 382_678_425_000_000, y: 46_003_200_000_000, z: 506_482_900_000_000 }),
        ("CS501HBA0", Position { x: 382_556_875_000_000, y: 46_064_762_000_000, z: 506_568_300_000_000 }),
        ("CS501HBA1", Position { x: 382_566_350_000_000, y: 46_069_266_000_000, z: 506_560_800_000_000 }),
        ("CZ", Position { x: 407_459_800_000_000, y: 103_723_200_000_000, z: 478_139_300_000_000 }),
        ("CZ-Ondrejov", Position { x: 397_975_700_000_000, y: 104_992_800_000_000, z: 485_667_400_000_000 }),
        ("DE601HBA", Position { x: 403_410_150_000_000, y: 48_701_275_000_000, z: 490_023_050_000_000 }),
        ("DE602HBA", Position { x: 415_256_800_000_000, y: 82_878_912_000_000, z: 475_436_200_000_000 }),
        ("DE603HBA", Position { x: 394_029_575_000_000, y: 81_672_288_000_000, z: 493_239_450_000_000 }),
        ("DE604HBA", Position { x: 379_637_975_000_000, y: 87_761_412_000_000, z: 503_271_250_000_000 }),
        ("DE605HBA", Position { x: 400_571_800_000_000, y: 45_102_847_000_000, z: 492_642_450_000_000 }),
        ("DE609HBA", Position { x: 372_721_775_000_000, y: 65_510_919_000_000, z: 511_700_300_000_000 }),
        ("FR606HBA", Position { x: 432_401_650_000_000, y: 16_554_553_000_000, z: 467_027_150_000_000 }),
        ("GMRT", Position { x: 602_038_200_000_000, y: 200_412_800_000_000, z: 57_280_600_000_000 }),
        ("IE613HBA", Position { x: 380_169_200_000_000, y: -52_898_394_000_000, z: 507_695_800_000_000 }),
        ("IT", Position { x: 454_229_400_000_000, y: 90_171_900_000_000, z: 437_539_700_000_000 }),
        ("IT-NOTO", Position { x: 493_453_700_000_000, y: 132_095_000_000_000, z: 380_651_000_000_000 }),
        ("LV614HBA", Position { x: 318_324_920_000_000, y: 127_680_180_000_000, z: 535_947_000_000_000 }),
        ("PL610HBA", Position { x: 373_846_250_000_000, y: 114_824_438_000_000, z: 502_171_050_000_000 }),
        ("PL611HBA", Position { x: 385_098_100_000_000, y: 143_899_488_000_000, z: 486_049_900_000_000 }),
        ("PL612HBA", Position { x: 355_148_175_000_000, y: 133_420_362_000_000, z: 511_015_750_000_000 }),
        ("RS106HBA", Position { x: 382_920_550_000_000, y: 46_914_253_000_000, z: 506_218_100_000_000 }),
        ("RS205HBA", Position { x: 383_147_975_000_000, y: 46_348_753_000_000, z: 506_099_000_000_000 }),
        ("RS208HBA", Position { x: 384_775_325_000_000, y: 46_696_281_000_000, z: 504_839_700_000_000 }),
        ("RS210HBA", Position { x: 387_782_750_000_000, y: 46_753_659_000_000, z: 502_544_550_000_000 }),
        ("RS305HBA", Position { x: 382_873_275_000_000, y: 45_469_241_000_000, z: 506_385_050_000_000 }),
        ("RS306HBA", Position { x: 382_977_125_000_000, y: 45_276_169_000_000, z: 506_324_300_000_000 }),
        ("RS307HBA", Position { x: 383_796_450_000_000, y: 44_962_725_000_000, z: 505_735_750_000_000 }),
        ("RS310HBA", Position { x: 384_537_625_000_000, y: 41_361_656_000_000, z: 505_479_650_000_000 }),
        ("RS406HBA", Position { x: 381_842_500_000_000, y: 45_202_028_000_000, z: 507_181_750_000_000 }),
        ("RS407HBA", Position { x: 381_164_950_000_000, y: 45_345_991_000_000, z: 507_672_900_000_000 }),
        ("RS409HBA", Position { x: 382_481_250_000_000, y: 42_613_034_000_000, z: 506_925_200_000_000 }),
        ("RS503HBA", Position { x: 382_413_850_000_000, y: 45_947_697_000_000, z: 506_685_850_000_000 }),
        ("RS508HBA", Position { x: 379_713_650_000_000, y: 46_311_444_000_000, z: 508_665_150_000_000 }),
        ("RS509HBA", Position { x: 378_353_750_000_000, y: 45_013_006_000_000, z: 509_786_600_000_000 }),
        ("SE607HBA", Position { x: 337_027_175_000_000, y: 71_212_588_000_000, z: 534_999_100_000_000 }),
        ("UK608HBA", Position { x: 400_846_200_000_000, y: -10_037_661_000_000, z: 494_371_700_000_000 }),
    ]
}

/// The e-MERLIN telescopes. Listed in name order; positions are earth-fixed, in units of 10⁻⁸ m.
pub open spec fn emerlin_stations() -> Seq<(&'static str, Position)> {
    seq![
        ("Cambridge", Position { x: 392_035_615_000_000, y: 254_202_000_000, z: 501_428_442_000_000 }),
        ("Darnhall", Position { x: 382_908_789_900_000, y: (-16_956_895_500_000) as i64, z: 508_108_234_600_000 }),
        ("Defford", Position { x: 392_344_256_600_000, y: (-14_691_433_000_000) as i64, z: 500_975_512_500_000 }),
        ("Knockin", Position { x: 386_008_489_800_000, y: (-20_210_503_900_000) as i64, z: 505_656_884_800_000 }),
        ("Lovell", Position { x: 382_262_604_000_000, y: (-15_410_565_000_000) as i64, z: 508_648_604_000_000 }),
        ("MarkII", Position { x: 382_300_921_443_620, y: (-15_418_208_214_624) as i64, z: 508_597_371_146_964 }),
        ("Pickmere", Position { x: 381_754_995_600_000, y: (-16_303_114_100_000) as i64, z: 508_989_665_400_000 }),
    ]
}

fn emerlin_station_list() -> (r: Vec<(&'static str, Position)>)
    ensures
        r@ == emerlin_stations(),
{
    vec![
        ("Cambridge", Position { x: 392_035_615_000_000, y: 254_202_000_000, z: 501_428_442_000_000 }),
        ("Darnhall", Position { x: 382_908_789_900_000, y: -16_956_895_500_000, z: 508_108_234_600_000 }),
        ("Defford", Position { x: 392_344_256_600_000, y: -14_691_433_000_000, z: 500_975_512_500_000 }),
        ("Knockin", Position { x: 386_008_489_800_000, y: -20_210_503_900_000, z: 505_656_884_800_000 }),
        ("Lovell", Position { x: 382_262_604_000_000, y: -15_410_565_000_000, z: 508_648_604_000_000 }),
        ("MarkII", Position { x: 382_300_921_443_620, y: -15_418_208_214_624, z: 508_597_371_146_964 }),
        ("Pickmere", Position { x: 381_754_995_600_000, y: -16_303_114_100_000, z: 508_989_665_400_000 }),
    ]
}

/// The LAMBDA array of Australian telescopes. Listed in name order; positions are earth-fixed, in units of 10⁻⁸ m.
pub open spec fn lambda_stations() -> Seq<(&'static str, Position)> {
    seq![
        ("Ceduna", Position { x: (-375_335_800_283_300) as i64, y: 391_259_835_328_100, z: (-334_828_252_775_300) as i64 }),
        ("Hobart", Position { x: (-395_046_365_749_300) as i64, y: 252_254_271_574_000, z: (-431_129_395_813_500) as i64 }),
        ("Narrabri", Position { x: (-475_200_807_204_700) as i64, y: 279_133_220_177_800, z: (-320_019_764_436_100) as i64 }),
        ("Parkes", Position { x: (-455_396_083_420_700) as i64, y: 281_697_741_099_600, z: (-345_417_213_968_000) as i64 }),
        ("Perth", Position { x: (-236_915_778_449_800) as i64, y: 488_125_588_390_900, z: (-334_163_277_080_700) as i64 }),
    ]
}

fn lambda_station_list() -> (r: Vec<(&'static str, Position)>)
    ensures
        r@ == lambda_stations(),
{
    vec![
        ("Ceduna", Position { x: -375_335_800_283_300, y: 391_259_835_328_100, z: -334_828_252_775_300 }),
        ("Hobart", Position { x: -395_046_365_749_300, y: 252_254_271_574_000, z: -431_129_395_813_500 }),
        ("Narrabri", Position { x: -475_200_807_204_700, y: 279_133_220_177_800, z: -320_019_764_436_100 }),
        ("Parkes", Position { x: -455_396_083_420_700, y: 281_697_741_099_600, z: -345_417_213_968_000 }),
        ("Perth", Position { x: -236_915_778_449_800, y: 488_125_588_390_900, z: -334_163_277_080_700 }),
    ]
}

/// The two international LOFAR stations used for any other array name. Listed in name order; positions are earth-fixed, in units of 10⁻⁸ m.
pub open spec fn default_stations() -> Seq<(&'static str, Position)> {
    seq![
        ("IE613HBA", Position { x: 380_169_200_000_000, y: (-52_898_394_000_000) as i64, z: 507_695_800_000_000 }),
        ("PL611HBA", Position { x: 385_098_100_000_000, y: 143_899_488_000_000, z: 486_049_900_000_000 }),
    ]
}

fn default_station_list() -> (r: Vec<(&'static str, Position)>)
    ensures
        r@ == default_stations(),
{
    vec![
        ("IE613HBA", Position { x: 380_169_200_000_000, y: -52_898_394_000_000, z: 507_695_800_000_000 }),
        ("PL611HBA", Position { x: 385_098_100_000_000, y: 143_899_488_000_000, z: 486_049_900_000_000 }),
    ]
}

/// The station list of the array called `name`: LOFAR, e-MERLIN and LAMBDA
/// have their own lists, any other name gets the default pair of stations.
pub open spec fn stations_for(name: Seq<char>) -> Seq<(&'static str, Position)> {
    if name == "LOFAR"@ {
        lofar_stations()
    } else if name == "e-MERLIN"@ {
        emerlin_stations()
    } else if name == "LAMBDA"@ {
        lambda_stations()
    } else {
        default_stations()
    }
}

/// The antenna table of the array called `name`, keyed and ordered by station
/// name.
pub fn get_array_from_name(name: &str) -> (r: AntennaTable)
    ensures
        r.wf(),
        r@ == table_of(stations_for(name@)),
{
    let list = if names_equal(name, "LOFAR") {
        lofar_station_list()
    } else if names_equal(name, "e-MERLIN") {
        emerlin_station_list()
    } else if names_equal(name, "LAMBDA") {
        lambda_station_list()
    } else {
        default_station_list()
    };
    AntennaTable::from_entries(list.as_slice())
}

/// The stations that take part in an observation with the array called
/// `array_name`: its catalogue in name order, less the stations that
/// `antenna_filter` deselects (byte `i` belongs to the `i`-th station, zero
/// drops it, stations past the end of the filter stay).
pub fn select_antennas(array_name: &str, antenna_filter: &[u8]) -> (r: AntennaTable)
    ensures
        r.wf(),
        r@ == masked(table_of(stations_for(array_name@)), antenna_filter@),
{
    let mut table = get_array_from_name(array_name);
    table.retain_by_mask(antenna_filter);
    table
}

/// Between 6300 km and 6400 km from the earth's centre (positions in units of
/// 10⁻⁸ m): a station on the earth's surface.
pub open spec fn on_earth_surface(p: Position) -> bool {
    let r2 = p.x * p.x + p.y * p.y + p.z * p.z;
    630_000_000_000_000 * 630_000_000_000_000 < r2 < 640_000_000_000_000 * 640_000_000_000_000
}

/// A station list in strict name order, every station on the earth's surface.
pub open spec fn well_surveyed(entries: Seq<(&str, Position)>) -> bool {
    &&& list_in_name_order(entries)
    &&& forall|i: int| 0 <= i < entries.len() ==> on_earth_surface(#[trigger] entries[i].1)
}

/// The number of stations of the array called `name`.
pub open spec fn catalogue_size(name: Seq<char>) -> nat {
    if name == "LOFAR"@ {
        80
    } else if name == "e-MERLIN"@ {
        7
    } else if name == "LAMBDA"@ {
        5
    } else {
        2
    }
}

proof fn lemma_lofar_well_surveyed()
    ensures
        well_surveyed(lofar_stations()),
{
    assert(on_earth_surface(lofar_stations()[0].1)) by (nonlinear_arith);
    assert(on_earth_surface(lofar_stations()[1].1)) by (nonlinear_arith);
    assert(on_earth_surface(lofar_stations()[2].1)) by (nonlinear_arith);
    assert(on_earth_surface(lofar_stations()[3].1)) by (nonlinear_arith);
    assert(on_earth_surface(lofar_stations()[4].1)) by (nonlinear_arith);
    assert(on_earth_surface(lofar_stations()[5].1)) by (nonlinear_arith);
    assert(on_earth_surface(lofar_stations()[6].1)) by (nonlinear_arith);
    assert(on_earth_surface(lofar_stations()[7].1)) by (nonlinear_arith);
    assert(on_earth_surface(lofar_stations()[8].1)) by (nonlinear_arith);
    assert(on_earth_surface(lofar_stations()[9].1)) by (nonlinear_arith);
    assert(on_earth_surface(lofar_stations()[10].1)) by (nonlinear_arith);
    assert(on_earth_surface(lofar_stations()[11].1)) by (nonlinear_arith);
    assert(on_earth_surface(lofar_stations()[12].1)) by (nonlinear_arith);
    assert(on_earth_surface(lofar_stations()[13].1)) by (nonlinear_arith);
    assert(on_earth_surface(lofar_stations()[14].1)) by (nonlinear_arith);
    assert(on_earth_surface(lofar_stations()[15].1)) by (nonlinear_arith);
    assert(on_earth_surface(lofar_stations()[16].1)) by (nonlinear_arith);
    assert(on_earth_surface(lofar_stations()[17].1)) by (nonlinear_arith);
    assert(on_earth_surface(lofar_stations()[18].1)) by (nonlinear_arith);
    assert(on_earth_surface(lofar_stations()[19].1)) by (nonlinear_arith);
    assert(on_earth_surface(lofar_stations()[20].1)) by (nonlinear_arith);
    assert(on_earth_surface(lofar_stations()[21].1)) by (nonlinear_arith);
    assert(on_earth_surface(lofar_stations()[22].1)) by (nonlinear_arith);
    assert(on_earth_surface(lofar_stations()[23].1)) by (nonlinear_arith);
    assert(on_earth_surface(lofar_stations()[24].1)) by (nonlinear_arith);
    assert(on_earth_surface(lofar_stations()[25].1)) by (nonlinear_arith);
    assert(on_earth_surface(lofar_stations()[26].1)) by (nonlinear_arith);
    assert(on_earth_surface(lofar_stations()[27].1)) by (nonlinear_arith);
    assert(on_earth_surface(lofar_stations()[28].1)) by (nonlinear_arith);
    assert(on_earth_surface(lofar_stations()[29].1)) by (nonlinear_arith);
    assert(on_earth_surface(lofar_stations()[30].1)) by (nonlinear_arith);
    assert(on_earth_surface(lofar_stations()[31].1)) by (nonlinear_arith);
    assert(on_earth_surface(lofar_stations()[32].1)) by (nonlinear_arith);
    assert(on_earth_surface(lofar_stations()[33].1)) by (nonlinear_arith);
    assert(on_earth_surface(lofar_stations()[34].1)) by (nonlinear_arith);
    assert(on_earth_surface(lofar_stations()[35].1)) by (nonlinear_arith);
    assert(on_earth_surface(lofar_stations()[36].1)) by (nonlinear_arith);
    assert(on_earth_surface(lofar_stations()[37].1)) by (nonlinear_arith);
    assert(on_earth_surface(lofar_stations()[38].1)) by (nonlinear_arith);
    assert(on_earth_surface(lofar_stations()[39].1)) by (nonlinear_arith);
    assert(on_earth_surface(lofar_stations()[40].1)) by (nonlinear_arith);
    assert(on_earth_surface(lofar_stations()[41].1)) by (nonlinear_arith);
    assert(on_earth_surface(lofar_stations()[42].1)) by (nonlinear_arith);
    assert(on_earth_surface(lofar_stations()[43].1)) by (nonlinear_arith);
    assert(on_earth_surface(lofar_stations()[44].1)) by (nonlinear_arith);
    assert(on_earth_surface(lofar_stations()[45].1)) by (nonlinear_arith);
    assert(on_earth_surface(lofar_stations()[46].1)) by (nonlinear_arith);
    assert(on_earth_surface(lofar_stations()[47].1)) by (nonlinear_arith);
    assert(on_earth_surface(lofar_stations()[48].1)) by (nonlinear_arith);
    assert(on_earth_surface(lofar_stations()[49].1)) by (nonlinear_arith);
    assert(on_earth_surface(lofar_stations()[50].1)) by (nonlinear_arith);
    assert(on_earth_surface(lofar_stations()[51].1)) by (nonlinear_arith);
    assert(on_earth_surface(lofar_stations()[52].1)) by (nonlinear_arith);
    assert(on_earth_surface(lofar_stations()[53].1)) by (nonlinear_arith);
    assert(on_earth_surface(lofar_stations()[54].1)) by (nonlinear_arith);
    assert(on_earth_surface(lofar_stations()[55].1)) by (nonlinear_arith);
    assert(on_earth_surface(lofar_stations()[56].1)) by (nonlinear_arith);
    assert(on_earth_surface(lofar_stations()[57].1)) by (nonlinear_arith);
    assert(on_earth_surface(lofar_stations()[58].1)) by (nonlinear_arith);
    assert(on_earth_surface(lofar_stations()[59].1)) by (nonlinear_arith);
    assert(on_earth_surface(lofar_stations()[60].1)) by (nonlinear_arith);
    assert(on_earth_surface(lofar_stations()[61].1)) by (nonlinear_arith);
    assert(on_earth_surface(lofar_stations()[62].1)) by (nonlinear_arith);
    assert(on_earth_surface(lofar_stations()[63].1)) by (nonlinear_arith);
    assert(on_earth_surface(lofar_stations()[64].1)) by (nonlinear_arith);
    assert(on_earth_surface(lofar_stations()[65].1)) by (nonlinear_arith);
    assert(on_earth_surface(lofar_stations()[66].1)) by (nonlinear_arith);
    assert(on_earth_surface(lofar_stations()[67].1)) by (nonlinear_arith);
    assert(on_earth_surface(lofar_stations()[68].1)) by (nonlinear_arith);
    assert(on_earth_surface(lofar_stations()[69].1)) by (nonlinear_arith);
    assert(on_earth_surface(lofar_stations()[70].1)) by (nonlinear_arith);
    assert(on_earth_surface(lofar_stations()[71].1)) by (nonlinear_arith);
    assert(on_earth_surface(lofar_stations()[72].1)) by (nonlinear_arith);
    assert(on_earth_surface(lofar_stations()[73].1)) by (nonlinear_arith);
    assert(on_earth_surface(lofar_stations()[74].1)) by (nonlinear_arith);
    assert(on_earth_surface(lofar_stations()[75].1)) by (nonlinear_arith);
    assert(on_earth_surface(lofar_stations()[76].1)) by (nonlinear_arith);
    assert(on_earth_surface(lofar_stations()[77].1)) by (nonlinear_arith);
    assert(on_earth_surface(lofar_stations()[78].1)) by (nonlinear_arith);
    assert(on_earth_surface(lofar_stations()[79].1)) by (nonlinear_arith);
    reveal_strlit("BG");
    reveal_strlit("CS001HBA0");
    reveal_strlit("CS001HBA1");
    reveal_strlit("CS002HBA0");
    reveal_strlit("CS002HBA1");
    reveal_strlit("CS003HBA0");
    reveal_strlit("CS003HBA1");
    reveal_strlit("CS004HBA0");
    reveal_strlit("CS004HBA1");
    reveal_strlit("CS005HBA0");
    reveal_strlit("CS005HBA1");
    reveal_strlit("CS006HBA0");
    reveal_strlit("CS006HBA1");
    reveal_strlit("CS007HBA0");
    reveal_strlit("CS007HBA1");
    reveal_strlit("CS011HBA0");
    reveal_strlit("CS011HBA1");
    reveal_strlit("CS013HBA0");
    reveal_strlit("CS013HBA1");
    reveal_strlit("CS017HBA0");
    reveal_strlit("CS017HBA1");
    reveal_strlit("CS021HBA0");
    reveal_strlit("CS021HBA1");
    reveal_strlit("CS024HBA0");
    reveal_strlit("CS024HBA1");
    reveal_strlit("CS028HBA0");
    reveal_strlit("CS028HBA1");
    reveal_strlit("CS030HBA0");
    reveal_strlit("CS030HBA1");
    reveal_strlit("CS031HBA0");
    reveal_strlit("CS031HBA1");
    reveal_strlit("CS032HBA0");
    reveal_strlit("CS032HBA1");
    reveal_strlit("CS101HBA0");
    reveal_strlit("CS101HBA1");
    reveal_strlit("CS103HBA0");
    reveal_strlit("CS103HBA1");
    reveal_strlit("CS201HBA0");
    reveal_strlit("CS201HBA1");
    reveal_strlit("CS301HBA0");
    reveal_strlit("CS301HBA1");
    reveal_strlit("CS302HBA0");
    reveal_strlit("CS302HBA1");
    reveal_strlit("CS401HBA0");
    reveal_strlit("CS401HBA1");
    reveal_strlit("CS501HBA0");
    reveal_strlit("CS501HBA1");
    reveal_strlit("CZ");
    reveal_strlit("CZ-Ondrejov");
    reveal_strlit("DE601HBA");
    reveal_strlit("DE602HBA");
    reveal_strlit("DE603HBA");
    reveal_strlit("DE604HBA");
    reveal_strlit("DE605HBA");
    reveal_strlit("DE609HBA");
    reveal_strlit("FR606HBA");
    reveal_strlit("GMRT");
    reveal_strlit("IE613HBA");
    reveal_strlit("IT");
    reveal_strlit("IT-NOTO");
    reveal_strlit("LV614HBA");
    reveal_strlit("PL610HBA");
    reveal_strlit("PL611HBA");
    reveal_strlit("PL612HBA");
    reveal_strlit("RS106HBA");
    reveal_strlit("RS205HBA");
    reveal_strlit("RS208HBA");
    reveal_strlit("RS210HBA");
    reveal_strlit("RS305HBA");
    reveal_strlit("RS306HBA");
    reveal_strlit("RS307HBA");
    reveal_strlit("RS310HBA");
    reveal_strlit("RS406HBA");
    reveal_strlit("RS407HBA");
    reveal_strlit("RS409HBA");
    reveal_strlit("RS503HBA");
    reveal_strlit("RS508HBA");
    reveal_strlit("RS509HBA");
    reveal_strlit("SE607HBA");
    reveal_strlit("UK608HBA");
    reveal_with_fuel(name_lt, 12);
}

proof fn lemma_emerlin_well_surveyed()
    ensures
        well_surveyed(emerlin_stations()),
{
    assert(on_earth_surface(emerlin_stations()[0].1)) by (nonlinear_arith);
    assert(on_earth_surface(emerlin_stations()[1].1)) by (nonlinear_arith);
    assert(on_earth_surface(emerlin_stations()[2].1)) by (nonlinear_arith);
    assert(on_earth_surface(emerlin_stations()[3].1)) by (nonlinear_arith);
    assert(on_earth_surface(emerlin_stations()[4].1)) by (nonlinear_arith);
    assert(on_earth_surface(emerlin_stations()[5].1)) by (nonlinear_arith);
    assert(on_earth_surface(emerlin_stations()[6].1)) by (nonlinear_arith);
    reveal_strlit("Cambridge");
    reveal_strlit("Darnhall");
    reveal_strlit("Defford");
    reveal_strlit("Knockin");
    reveal_strlit("Lovell");
    reveal_strlit("MarkII");
    reveal_strlit("Pickmere");
    reveal_with_fuel(name_lt, 12);
}

proof fn lemma_lambda_well_surveyed()
    ensures
        well_surveyed(lambda_stations()),
{
    assert(on_earth_surface(lambda_stations()[0].1)) by (nonlinear_arith);
    assert(on_earth_surface(lambda_stations()[1].1)) by (nonlinear_arith);
    assert(on_earth_surface(lambda_stations()[2].1)) by (nonlinear_arith);
    assert(on_earth_surface(lambda_stations()[3].1)) by (nonlinear_arith);
    assert(on_earth_surface(lambda_stations()[4].1)) by (nonlinear_arith);
    reveal_strlit("Ceduna");
    reveal_strlit("Hobart");
    reveal_strlit("Narrabri");
    reveal_strlit("Parkes");
    reveal_strlit("Perth");
    reveal_with_fuel(name_lt, 12);
}

proof fn lemma_default_well_surveyed()
    ensures
        well_surveyed(default_stations()),
{
    assert(on_earth_surface(default_stations()[0].1)) by (nonlinear_arith);
    assert(on_earth_surface(default_stations()[1].1)) by (nonlinear_arith);
    reveal_strlit("IE613HBA");
    reveal_strlit("PL611HBA");
    reveal_with_fuel(name_lt, 12);
}

/// What every catalogue looks like: LOFAR has 80 stations, e-MERLIN 7,
/// LAMBDA 5 and any other name the default 2; the table holds its list as
/// written (already in strict name order, so no name occurs twice); and every
/// station lies between 6300 km and 6400 km from the earth's centre.
pub proof fn lemma_catalogue_shape(name: Seq<char>)
    ensures
        table_of(stations_for(name)) == entries_view(stations_for(name)),
        table_of(stations_for(name)).len() == catalogue_size(name),
        ({
            let n = table_of(stations_for(name)).len();
            n == 80 || n == 7 || n == 5 || n == 2
        }),
        names_increasing(table_of(stations_for(name))),
        forall|k: int|
            0 <= k < table_of(stations_for(name)).len() ==> on_earth_surface(
                #[trigger] table_of(stations_for(name))[k].1,
            ),
{
    lemma_lofar_well_surveyed();
    lemma_emerlin_well_surveyed();
    lemma_lambda_well_surveyed();
    lemma_default_well_surveyed();
    let entries = stations_for(name);
    lemma_table_of_ordered_list(entries);
    lemma_table_of_ordered(entries);
    let t = table_of(entries);
    assert forall|k: int| 0 <= k < t.len() implies on_earth_surface(#[trigger] t[k].1) by {
        assert(t[k].1 == entries[k].1);
    }
}

} // verus!
