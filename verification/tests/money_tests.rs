use money::{Currency, Decimal, Money};

#[test]
fn test_money_creation() {
    let usd = Money::new(Decimal::new(100, 2), Currency::usd()); // $1.00
    assert_eq!(usd.amount(), Decimal::new(100, 2));
    assert_eq!(usd.currency().code, "USD");
    assert_eq!(usd.currency().symbol, "$");
}

#[test]
fn test_money_addition_success() {
    let usd1 = Money::new(Decimal::new(100, 2), Currency::usd()); // $1.00
    let usd2 = Money::new(Decimal::new(200, 2), Currency::usd()); // $2.00
    let result = usd1.add(usd2);
    assert!(result.is_ok());
    let money = result.unwrap();
    assert_eq!(money.amount(), Decimal::new(300, 2)); // $3.00
    assert_eq!(money.currency().code, "USD");
}

#[test]
fn test_money_addition_currency_mismatch() {
    let usd = Money::new(Decimal::new(100, 2), Currency::usd()); // $1.00
    let eur = Money::new(Decimal::new(100, 2), Currency::eur()); // €1.00
    let result = usd.add(eur);
    assert!(result.is_err());
    assert_eq!(result.err().unwrap(), "Currency mismatch: USD vs EUR");
}

#[test]
fn test_money_subtraction_success() {
    let usd1 = Money::new(Decimal::new(300, 2), Currency::usd()); // $3.00
    let usd2 = Money::new(Decimal::new(200, 2), Currency::usd()); // $2.00
    let result = usd1.subtract(usd2);
    assert!(result.is_ok());
    let money = result.unwrap();
    assert_eq!(money.amount(), Decimal::new(100, 2)); // $1.00
    assert_eq!(money.currency().code, "USD");
}

#[test]
fn test_money_subtraction_currency_mismatch() {
    let usd = Money::new(Decimal::new(100, 2), Currency::usd()); // $1.00
    let eur = Money::new(Decimal::new(100, 2), Currency::eur()); // €1.00
    let result = usd.subtract(eur);
    assert!(result.is_err());
    assert_eq!(result.err().unwrap(), "Currency mismatch: USD vs EUR");
}

#[test]
fn test_money_scalar_multiplication() {
    let usd = Money::new(Decimal::new(100, 2), Currency::usd()); // $1.00
    let result = usd.multiply_scalar(Decimal::new(3, 0)); // $1.00 * 3 = $3.00
    assert_eq!(result.amount(), Decimal::new(300, 2)); // $3.00
    assert_eq!(result.currency().code, "USD");
}

#[test]
fn test_money_multiplication_success() {
    let usd1 = Money::new(Decimal::new(200, 2), Currency::usd()); // $2.00
    let usd2 = Money::new(Decimal::new(300, 2), Currency::usd()); // $3.00
    let result = usd1.multiply(usd2);
    assert!(result.is_ok());
    let money = result.unwrap();
    assert_eq!(money.amount(), Decimal::new(60000, 4)); // $6.0000
    assert_eq!(money.currency().code, "USD");
}

#[test]
fn test_money_multiplication_currency_mismatch() {
    let usd = Money::new(Decimal::new(100, 2), Currency::usd()); // $1.00
    let eur = Money::new(Decimal::new(100, 2), Currency::eur()); // €1.00
    let result = usd.multiply(eur);
    assert!(result.is_err());
    assert_eq!(result.err().unwrap(), "Currency mismatch: USD vs EUR");
}

#[test]
fn test_money_display() {
    let usd = Money::new(Decimal::new(12345, 2), Currency::usd()); // $123.45
    let eur = Money::new(Decimal::new(67890, 2), Currency::eur()); // €678.90
    let jpy = Money::new(Decimal::new(5000, 0), Currency::jpy()); // ¥5000

    assert_eq!(usd.display(), "$ 123.45");
    assert_eq!(eur.display(), "€ 678.90");
    assert_eq!(jpy.display(), "¥ 5000.00");
}

#[test]
fn test_money_zero_amount() {
    let usd = Money::new(Decimal::new(0, 2), Currency::usd()); // $0.00
    assert_eq!(usd.amount(), Decimal::new(0, 2));
    assert_eq!(usd.currency().code, "USD");
    assert_eq!(usd.currency().symbol, "$");
}

#[test]
fn test_money_large_values() {
    let usd = Money::new(Decimal::new(1_000_000_000, 2), Currency::usd()); // $10,000,000.00
    let scaled = usd.multiply_scalar(Decimal::new(2, 0)); // $10,000,000.00 * 2 = $20,000,000.00
    assert_eq!(scaled.amount(), Decimal::new(2_000_000_000, 2));
    assert_eq!(scaled.currency().code, "USD");
}

#[test]
fn test_money_negative_values() {
    let usd = Money::new(Decimal::new(-500, 2), Currency::usd()); // -$5.00
    assert_eq!(usd.amount(), Decimal::new(-500, 2));
    assert_eq!(usd.currency().code, "USD");
}

#[test]
fn test_money_add_zero_identity() {
    let m = Money::new(Decimal::new(1234, 2), Currency::usd());
    let z = Money::new(Decimal::new(0, 2), Currency::usd());
    let sum = m.clone().add(z).unwrap();
    assert_eq!(sum.amount(), m.amount());
}

#[test]
fn test_money_subtract_self_is_zero() {
    let m = Money::new(Decimal::new(775, 2), Currency::eur());
    let diff = m.clone().subtract(m).unwrap();
    assert_eq!(diff.amount(), Decimal::new(0, 0));
}

#[test]
fn test_money_addition_commutes() {
    let m1 = Money::new(Decimal::new(125, 2), Currency::usd()); // $1.25
    let m2 = Money::new(Decimal::new(5, 1), Currency::usd()); // $0.5
    let a = m1.clone().add(m2.clone()).unwrap();
    let b = m2.add(m1).unwrap();
    assert_eq!(a.amount(), b.amount());
    assert_eq!(a.amount(), Decimal::new(175, 2));
}

#[test]
fn test_money_scalar_multiplication_distributes() {
    let m = Money::new(Decimal::new(100, 2), Currency::usd()); // $1.00
    let k1 = Decimal::new(15, 1); // 1.5
    let k2 = Decimal::new(25, 1); // 2.5
    let k_sum = Decimal::new(40, 1); // 4.0
    let scaled_once = m.clone().multiply_scalar(k_sum);
    let sum_of_scaled = m.clone().multiply_scalar(k1).add(m.multiply_scalar(k2)).unwrap();
    assert_eq!(scaled_once.amount(), sum_of_scaled.amount());
    assert_eq!(scaled_once.amount(), Decimal::new(400, 2));
}

#[test]
fn test_money_display_negative_and_extra_scale() {
    let neg = Money::new(Decimal::new(-500, 2), Currency::usd()); // -$5.00
    assert_eq!(neg.display(), "$ -5.00");
    let fine = Money::new(Decimal::new(12345, 3), Currency::usd()); // $12.345
    assert_eq!(fine.display(), "$ 12.34");
    let coarse = Money::new(Decimal::new(5, 1), Currency::usd()); // $0.5
    assert_eq!(coarse.display(), "$ 0.50");
}

#[test]
fn test_decimal_equality_by_value() {
    assert_eq!(Decimal::new(3, 0), Decimal::new(300, 2));
    assert_ne!(Decimal::new(3, 0), Decimal::new(301, 2));
    assert_eq!(Decimal::new(-40, 1), Decimal::new(-4, 0));
    assert_ne!(Decimal::new(0, 0), Decimal::new(1, 28));
}

#[test]
fn test_money_equality() {
    let a = Money::new(Decimal::new(100, 2), Currency::usd());
    let b = Money::new(Decimal::new(1, 0), Currency::usd());
    let c = Money::new(Decimal::new(100, 2), Currency::eur());
    assert_eq!(a, b);
    assert_ne!(a, c);
}
