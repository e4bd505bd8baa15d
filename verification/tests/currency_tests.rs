use money::Currency;

#[test]
fn test_currency_constants() {
    assert_eq!(Currency::usd().code, "USD");
    assert_eq!(Currency::usd().symbol, "$");
}

#[test]
fn test_custom_currency_creation() {
    let btc = Currency::new("BTC", "₿");
    assert_eq!(btc.code, "BTC");
    assert_eq!(btc.symbol, "₿");
}

#[test]
fn test_currency_rebuilt_is_equal() {
    let krw = Currency::new("KRW", "₩");
    let rebuilt = Currency::new(krw.code.as_str(), krw.symbol.as_str());
    assert_eq!(rebuilt, krw);
    assert_ne!(Currency::usd(), Currency::eur());
}

#[test]
fn test_currency_display() {
    assert_eq!(Currency::usd().display(), "$ (USD)");
    assert_eq!(Currency::cny().display(), "元 (CNY)");
    assert_eq!(Currency::gbp().display(), "£ (GBP)");
}
