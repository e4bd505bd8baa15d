pub mod currency;
pub mod decimal;
pub mod money;

pub use currency::Currency;
pub use decimal::Decimal;
pub use money::Money;
