use num_bigint::BigInt;
use pi_digits::Engine;

/// Ample per-character search budget: in practice each digit certifies
/// after a handful of refinement steps.
fn fuel() -> u64 {
    1000
}

fn first_chars(count: usize) -> String {
    let mut engine = Engine::new();
    let chars = engine.take_chars(count, fuel()).expect("digit search budget exhausted");
    chars.into_iter().collect()
}

/// A batch (non-incremental) reference computation of the same expansion,
/// used as an external validation oracle.
fn calc_pi(length: usize) -> String {
    let mut result_builder: Vec<String> = Vec::default();

    let mut q = BigInt::from(1);
    let mut r = BigInt::from(0);
    let mut t = BigInt::from(1);
    let mut k = BigInt::from(1);
    let mut n = BigInt::from(3);
    let mut l = BigInt::from(3);
    let mut first = true;
    while result_builder.len() < length {
        if &q * 4 + &r - &t < &n * &t {
            result_builder.push(format!("{}", n));
            if first {
                result_builder.push(".".to_owned());
                first = false;
            }
            let nr = (&r - &n * &t) * 10;
            n = (&q * 3 + &r) * 10 / &t - &n * 10;
            q *= 10;
            r = nr;
        } else {
            let nr = (&q * 2 + &r) * &l;
            let nn = (&q * &k * 7 + 2 + &r * &l) / (&t * &l);
            q *= &k;
            t *= &l;
            l += 2;
            k += 1;
            n = nn;
            r = nr;
        }
    }

    result_builder.join("")
}

#[test]
fn three_digits() {
    let expected_value = "3.14".to_owned();
    let actual_value: String = first_chars(4);
    assert_eq!(expected_value, actual_value);
}

#[test]
fn some_digits() {
    let expected_value = "3.1415926535897932384626433832795028841971693".to_owned();
    let actual_value: String = first_chars(expected_value.len());
    assert_eq!(expected_value, actual_value);
}

#[test]
fn many_digits() {
    let expected_value: String = vec![
        "3.1415926535897932384626433832795028841971693",
        "993751058209749445923078164062862089986280348",
        "253421170679821480865132823066470938446095505",
        "822317253594081284811174502841027019385211055",
        "596446229489549303819644288109756659334461284",
        "756482337867831652712019091456485669234603486",
        "104543266482133936072602491412737245870066063",
        "155881748815209209628292540917153643678925903",
        "600113305305488204665213841469519415116094330",
        "572703657595919530921861173819326117931051185",
        "480744623799627495673518857527248912279381830",
        "119491298336733624406566430860213949463952247",
        "371907021798609437027705392171762931767523846",
        "748184676694051320005681271452635608277857713",
        "427577896091736371787214684409012249534301465",
        "495853710507922796892589235420199561121290219",
        "608640344181598136297747713099605187072113499",
        "999983729780499510597317328160963185950244594",
        "553469083026425223082533446850352619311881710",
        "100031378387528865875332083814206171776691473",
        "035982534904287554687311595628638823537875937",
        "5195778185778053217",
    ]
    .iter()
    .map(|s| s.to_owned())
    .collect();

    let actual_value: String = first_chars(expected_value.len());
    assert_eq!(expected_value, actual_value);
}

#[test]
fn rosetta_code() {
    let expected_length: usize = 256;
    let expected_value = calc_pi(expected_length);
    let actual_value: String = first_chars(expected_length);
    assert_eq!(expected_value, actual_value);
}

#[test]
fn leading_digit_and_point() {
    let mut engine = Engine::new();
    assert_eq!(Some('3'), engine.next(fuel()));
    assert_eq!(Some('.'), engine.next(fuel()));
}

#[test]
fn determinism_across_instances() {
    let count: usize = 60;
    let mut first = Engine::new();
    let mut second = Engine::new();
    let a = first.take_chars(count, fuel()).expect("digit search budget exhausted");
    let b = second.take_chars(count, 100).expect("digit search budget exhausted");
    assert_eq!(a, b);
}

#[test]
fn digit_range() {
    let s = first_chars(200);
    let chars: Vec<char> = s.chars().collect();
    assert_eq!('3', chars[0]);
    assert_eq!('.', chars[1]);
    for (i, c) in chars.iter().enumerate() {
        if i == 1 {
            assert_eq!('.', *c);
        } else {
            assert!(c.is_ascii_digit());
        }
    }
}

#[test]
fn prefix_stability_within_one_instance() {
    let mut engine = Engine::new();
    let head = engine.take_chars(10, fuel()).expect("digit search budget exhausted");
    let tail = engine.take_chars(25, fuel()).expect("digit search budget exhausted");
    let joined: String =
        head.into_iter().collect::<String>() + &tail.into_iter().collect::<String>();
    assert_eq!(first_chars(35), joined);
}

#[test]
fn zero_outputs() {
    let mut engine = Engine::new();
    let none_taken = engine.take_chars(0, fuel()).expect("taking zero characters cannot fail");
    assert!(none_taken.is_empty());
    let after = engine.take_chars(4, fuel()).expect("digit search budget exhausted");
    let s: String = after.into_iter().collect();
    assert_eq!("3.14", s);
}

#[test]
fn short_prefixes() {
    assert_eq!("3", first_chars(1));
    assert_eq!("3.", first_chars(2));
    assert_eq!("", first_chars(0));
}

#[test]
fn exhausted_budget_resumes() {
    let mut engine = Engine::new();
    assert_eq!(None, engine.next(0));
    assert_eq!(Some('3'), engine.next(1));
    assert_eq!(Some('.'), engine.next(0));
}
