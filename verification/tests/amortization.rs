use fincalc::AmortizationPeriod;
use fincalc::double::Double;
use fincalc::period_multiplier;

fn val(d: Double) -> f64 {
    f64::from_bits(d.to_bits())
}

fn round_decimal(value: f64) -> f64 {
    (value * 10000.0).round() / 10000.0
}

/// The amortized payment, with the period unit resolved by the library.
fn amortization(
    principal: f64,
    rate: f64,
    num_periods: f64,
    amortization_period: AmortizationPeriod,
    pay_at_beginning: bool,
) -> f64 {
    let rate_per_period = rate / 12.0 / 100.0;
    let multiplier = val(period_multiplier(amortization_period));
    let mut num_interest_accruals = num_periods * multiplier;
    if pay_at_beginning {
        num_interest_accruals -= 1.0;
    }
    let numerator = rate_per_period * f64::powf(1.0 + rate_per_period, num_interest_accruals);
    let denominator = f64::powf(1.0 + rate_per_period, num_periods * multiplier) - 1.0;
    principal * (numerator / denominator)
}

#[test]
fn multiplier_of_a_month_is_one() {
    assert_eq!(val(period_multiplier(AmortizationPeriod::Month)), 1.0);
}

#[test]
fn multiplier_of_a_year_is_twelve() {
    assert_eq!(val(period_multiplier(AmortizationPeriod::Year)), 12.0);
}

#[test]
fn five_years_and_sixty_months_count_the_same_accruals() {
    let years = 5.0 * val(period_multiplier(AmortizationPeriod::Year));
    let months = 60.0 * val(period_multiplier(AmortizationPeriod::Month));
    assert_eq!(years.to_bits(), months.to_bits());
}

#[test]
fn amortization_over_years_scenario() {
    let payment = amortization(20000.0, 7.5, 5.0, AmortizationPeriod::Year, false);
    assert_eq!(round_decimal(payment), 400.759);
}

#[test]
fn amortization_over_months_scenario() {
    let payment = amortization(20000.0, 7.5, 60.0, AmortizationPeriod::Month, false);
    assert_eq!(round_decimal(payment), 400.759);
}

#[test]
fn equivalent_parameterizations_agree_to_the_bit() {
    let by_years = amortization(20000.0, 7.5, 5.0, AmortizationPeriod::Year, false);
    let by_months = amortization(20000.0, 7.5, 60.0, AmortizationPeriod::Month, false);
    assert_eq!(by_years.to_bits(), by_months.to_bits());

    let by_years_early = amortization(20000.0, 7.5, 5.0, AmortizationPeriod::Year, true);
    let by_months_early = amortization(20000.0, 7.5, 60.0, AmortizationPeriod::Month, true);
    assert_eq!(round_decimal(by_years_early), 398.2698);
    assert_eq!(by_years_early.to_bits(), by_months_early.to_bits());
}
