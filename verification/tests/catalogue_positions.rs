use toy_interferometer::catalogue::get_array_from_name;
use toy_interferometer::table::{AntennaTable, POSITION_UNITS_PER_METRE};

fn names_of(table: &AntennaTable) -> Vec<String> {
    (0..table.len()).map(|i| table.name(i)).collect()
}

fn metres(units: i64) -> f64 {
    units as f64 / POSITION_UNITS_PER_METRE as f64
}

fn assert_positions(array: &str, expected: &[(&str, f64, f64, f64)]) {
    let table = get_array_from_name(array);
    assert_eq!(table.len(), expected.len());
    for (name, x, y, z) in expected {
        let index = names_of(&table).iter().position(|n| n == name).expect("station present");
        let p = table.position(index);
        assert_eq!(metres(p.x), *x, "{} x", name);
        assert_eq!(metres(p.y), *y, "{} y", name);
        assert_eq!(metres(p.z), *z, "{} z", name);
    }
}

#[test]
fn lofar_positions_are_exact_in_metres() {
    assert_positions(
        "LOFAR",
        &[
            ("CS001HBA0", 3826896.25, 460979.47, 5064658.00),
            ("CS001HBA1", 3826979.50, 460897.59, 5064603.00),
            ("CS002HBA0", 3826601.00, 460953.41, 5064881.00),
            ("CS002HBA1", 3826565.50, 460958.12, 5064907.50),
            ("CS003HBA0", 3826471.25, 461000.12, 5064974.00),
            ("CS003HBA1", 3826517.75, 461035.25, 5064936.00),
            ("CS004HBA0", 3826585.75, 460865.84, 5064900.50),
            ("CS004HBA1", 3826579.50, 460917.47, 5064900.50),
            ("CS005HBA0", 3826701.25, 460989.25, 5064802.50),
            ("CS005HBA1", 3826631.25, 461021.81, 5064852.50),
            ("CS006HBA0", 3826653.75, 461136.44, 5064825.00),
            ("CS006HBA1", 3826612.50, 461080.31, 5064861.00),
            ("CS007HBA0", 3826478.75, 461083.72, 5064961.00),
            ("CS007HBA1", 3826538.00, 461169.72, 5064909.00),
            ("CS011HBA0", 3826637.50, 461227.34, 5064829.00),
            ("CS011HBA1", 3826649.00, 461354.25, 5064809.00),
            ("CS013HBA0", 3826319.00, 460856.12, 5065102.00),
            ("CS013HBA1", 3826402.00, 460774.28, 5065047.00),
            ("CS017HBA0", 3826405.00, 461507.47, 5064978.00),
            ("CS017HBA1", 3826499.75, 461552.50, 5064903.00),
            ("CS021HBA0", 3826463.50, 460533.09, 5065022.50),
            ("CS021HBA1", 3826368.75, 460488.06, 5065098.00),
            ("CS024HBA0", 3827218.25, 461403.91, 5064379.00),
            ("CS024HBA1", 3827123.50, 461358.88, 5064454.00),
            ("CS028HBA0", 3825573.25, 461324.59, 5065619.00),
            ("CS028HBA1", 3825656.25, 461242.75, 5065564.00),
            ("CS030HBA0", 3826041.50, 460323.38, 5065357.50),
            ("CS030HBA1", 3825958.50, 460405.22, 5065412.50),
            ("CS031HBA0", 3826383.00, 460279.34, 5065106.00),
            ("CS031HBA1", 3826477.75, 460324.38, 5065030.50),
            ("CS032HBA0", 3826864.25, 460451.94, 5064730.00),
            ("CS032HBA1", 3826947.50, 460370.06, 5064675.00),
            ("CS101HBA0", 3825900.00, 461698.91, 5065339.00),
            ("CS101HBA1", 3825805.25, 461653.88, 5065414.50),
            ("CS103HBA0", 3826331.50, 462759.06, 5064919.50),
            ("CS103HBA1", 3826248.50, 462840.94, 5064974.50),
            ("CS201HBA0", 3826679.25, 461855.25, 5064741.50),
            ("CS201HBA1", 3826690.75, 461982.12, 5064721.00),
            ("CS301HBA0", 3827442.50, 461050.81, 5064242.50),
            ("CS301HBA1", 3827431.00, 460923.91, 5064262.50),
            ("CS302HBA0", 3827973.25, 459728.62, 5063975.50),
            ("CS302HBA1", 3827890.00, 459810.47, 5064030.50),
            ("CS401HBA0", 3826795.75, 460158.91, 5064809.00),
            ("CS401HBA1", 3826784.25, 460032.00, 5064829.00),
            ("CS501HBA0", 3825568.75, 460647.62, 5065683.00),
            ("CS501HBA1", 3825663.50, 460692.66, 5065608.00),
            ("RS106HBA", 3829205.50, 469142.53, 5062181.00),
            ("RS205HBA", 3831479.75, 463487.53, 5060990.00),
            ("RS208HBA", 3847753.25, 466962.81, 5048397.00),
            ("RS210HBA", 3877827.50, 467536.59, 5025445.50),
            ("RS305HBA", 3828732.75, 454692.41, 5063850.50),
            ("RS306HBA", 3829771.25, 452761.69, 5063243.00),
            ("RS307HBA", 3837964.50, 449627.25, 5057357.50),
            ("RS310HBA", 3845376.25, 413616.56, 5054796.50),
            ("RS406HBA", 3818425.00, 452020.28, 5071817.50),
            ("RS407HBA", 3811649.50, 453459.91, 5076729.00),
            ("RS409HBA", 3824812.50, 426130.34, 5069252.00),
            ("RS503HBA", 3824138.50, 459476.97, 5066858.50),
            ("RS508HBA", 3797136.50, 463114.44, 5086651.50),
            ("RS509HBA", 3783537.50, 450130.06, 5097866.00),
            ("DE601HBA", 4034101.50, 487012.75, 4900230.50),
            ("DE602HBA", 4152568.00, 828789.12, 4754362.00),
            ("DE603HBA", 3940295.75, 816722.88, 4932394.50),
            ("DE604HBA", 3796379.75, 877614.12, 5032712.50),
            ("DE605HBA", 4005718.00, 451028.47, 4926424.50),
            ("FR606HBA", 4324016.50, 165545.53, 4670271.50),
            ("SE607HBA", 3370271.75, 712125.88, 5349991.00),
            ("UK608HBA", 4008462.00, -100376.61, 4943717.00),
            ("DE609HBA", 3727217.75, 655109.19, 5117003.00),
            ("PL610HBA", 3738462.50, 1148244.38, 5021710.50),
            ("PL611HBA", 3850981.00, 1438994.88, 4860499.00),
            ("PL612HBA", 3551481.75, 1334203.62, 5110157.50),
            ("IE613HBA", 3801692.00, -528983.94, 5076958.00),
            ("LV614HBA", 3183249.20, 1276801.80, 5359470.00),
            ("IT", 4542294.0, 901719.0, 4375397.0),
            ("BG", 4769182.0, 1680775.0, 3875504.0),
            ("GMRT", 6020382.0, 2004128.0, 572806.0),
            ("IT-NOTO", 4934537.0, 1320950.0, 3806510.0),
            ("CZ", 4074598.0, 1037232.0, 4781393.0),
            ("CZ-Ondrejov", 3979757.0, 1049928.0, 4856674.0),
        ],
    );
}

#[test]
fn emerlin_positions_are_exact_in_metres() {
    assert_positions(
        "e-MERLIN",
        &[
            ("Lovell", 3822626.04, -154105.65, 5086486.04),
            ("MarkII", 3823009.2144362, -154182.08214624, 5085973.71146964),
            ("Defford", 3923442.566, -146914.33, 5009755.125),
            ("Knockin", 3860084.898, -202105.039, 5056568.848),
            ("Pickmere", 3817549.956, -163031.141, 5089896.654),
            ("Darnhall", 3829087.899, -169568.955, 5081082.346),
            ("Cambridge", 3920356.15, 2542.02, 5014284.42),
        ],
    );
}

#[test]
fn lambda_positions_are_exact_in_metres() {
    assert_positions(
        "LAMBDA",
        &[
            ("Ceduna", -3753358.002833, 3912598.353281, -3348282.527753),
            ("Parkes", -4553960.834207, 2816977.410996, -3454172.139680),
            ("Narrabri", -4752008.072047, 2791332.201778, -3200197.644361),
            ("Hobart", -3950463.657493, 2522542.715740, -4311293.958135),
            ("Perth", -2369157.784498, 4881255.883909, -3341632.770807),
        ],
    );
}

#[test]
fn default_positions_are_exact_in_metres() {
    assert_positions(
        "anything else",
        &[
            ("PL611HBA", 3850981.00, 1438994.88, 4860499.00),
            ("IE613HBA", 3801692.00, -528983.94, 5076958.00),
        ],
    );
}
