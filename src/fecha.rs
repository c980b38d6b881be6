use vstd::prelude::*;
use chrono::Datelike;

verus! {

/// The earliest year a calendar date may have.
pub const ANIO_MIN: i32 = -262143;

/// The latest year a calendar date may have.
pub const ANIO_MAX: i32 = 262142;

/// A calendar date of the proleptic Gregorian calendar, without time.
#[derive(Clone, Copy, Debug, PartialEq, Eq, Structural)]
pub struct Fecha {
    pub anio: i32,
    pub mes: u32,
    pub dia: u32,
}

pub open spec fn bisiesto(y: int) -> bool {
    (y % 4 == 0 && y % 100 != 0) || y % 400 == 0
}

pub open spec fn dias_del_mes(y: int, m: int) -> int {
    if m == 2 {
        if bisiesto(y) { 29 } else { 28 }
    } else if m == 4 || m == 6 || m == 9 || m == 11 {
        30
    } else {
        31
    }
}

/// Days of the year that come before the first day of month `m`.
pub open spec fn dias_antes_del_mes(y: int, m: int) -> int {
    let base: int = if m <= 1 { 0 }
        else if m == 2 { 31 }
        else if m == 3 { 59 }
        else if m == 4 { 90 }
        else if m == 5 { 120 }
        else if m == 6 { 151 }
        else if m == 7 { 181 }
        else if m == 8 { 212 }
        else if m == 9 { 243 }
        else if m == 10 { 273 }
        else if m == 11 { 304 }
        else { 334 };
    base + if m > 2 && bisiesto(y) { 1int } else { 0int }
}

/// The day number of a date: 0001-01-01 is day 1, each later day one more,
/// each earlier day one less.
pub open spec fn numero_de_dia(y: int, m: int, d: int) -> int {
    let p = y - 1;
    365 * p + p / 4 - p / 100 + p / 400 + dias_antes_del_mes(y, m) + d
}

/// Day of the week of a day number, counted from Monday (0) to Sunday (6).
/// Day 1 (0001-01-01) is a Monday.
pub open spec fn dia_de_semana(n: int) -> int {
    (n + 6) % 7
}

pub open spec fn es_laborable(n: int) -> bool {
    dia_de_semana(n) < 5
}

/// The number of business days (Monday to Friday) among the day numbers `a..=b`.
pub open spec fn dias_habiles(a: int, b: int) -> int
    decreases b - a + 1,
{
    if b < a {
        0
    } else {
        dias_habiles(a, b - 1) + if es_laborable(b) { 1int } else { 0int }
    }
}

/// Whole years from `desde` to `hasta`, one less while the anniversary of
/// `desde` has not yet been reached in the year of `hasta`.
pub open spec fn anios_entre(desde: Fecha, hasta: Fecha) -> int {
    let anos = hasta.anio - desde.anio;
    if hasta.mes < desde.mes || (hasta.mes == desde.mes && hasta.dia < desde.dia) {
        anos - 1
    } else {
        anos
    }
}

impl Fecha {
    pub open spec fn valida(self) -> bool {
        &&& ANIO_MIN <= self.anio <= ANIO_MAX
        &&& 1 <= self.mes <= 12
        &&& 1 <= self.dia <= dias_del_mes(self.anio as int, self.mes as int)
    }

    pub open spec fn numero(self) -> int {
        numero_de_dia(self.anio as int, self.mes as int, self.dia as int)
    }

    pub open spec fn de_tupla(t: (int, int, int)) -> Fecha {
        Fecha { anio: t.0 as i32, mes: t.1 as u32, dia: t.2 as u32 }
    }
}

/// What chrono reads from a text with the format `%Y-%m-%d`, as year, month and day.
pub uninterp spec fn fecha_de_texto(s: Seq<char>) -> Option<(int, int, int)>;

/// The date that a text holds, if any.
pub open spec fn fecha_leida(s: Seq<char>) -> Option<Fecha> {
    match fecha_de_texto(s) {
        Some(t) => Some(Fecha::de_tupla(t)),
        None => None,
    }
}

/// Relies on chrono's `NaiveDate::parse_from_str` with the format `%Y-%m-%d`:
/// the result depends on the text alone, and a date it gives is a valid date
/// within chrono's range of years.
#[verifier::external_body]
fn leer_fecha(s: &str) -> (r: Option<Fecha>)
    ensures
        r is None <==> fecha_de_texto(s@) is None,
        r matches Some(f) ==> f.valida() && fecha_leida(s@) == Some(f),
{
    match chrono::NaiveDate::parse_from_str(s, "%Y-%m-%d") {
        Ok(d) => Some(Fecha { anio: d.year(), mes: d.month(), dia: d.day() }),
        Err(_) => None,
    }
}

/// Relies on chrono's `Datelike::num_days_from_ce`: the number of days since
/// 0001-01-01 (which is day 1) in the proleptic Gregorian calendar.
#[verifier::external_body]
pub(crate) fn numero_dia(f: &Fecha) -> (r: i32)
    requires
        f.valida(),
    ensures
        r as int == f.numero(),
{
    chrono::NaiveDate::from_ymd_opt(f.anio, f.mes, f.dia).unwrap().num_days_from_ce()
}

/// Reads a date written as `YYYY-MM-DD`.
pub fn parse_fecha(s: &str) -> (r: Option<Fecha>)
    ensures
        r == fecha_leida(s@),
        r matches Some(f) ==> f.valida(),
{
    leer_fecha(s)
}

/// Day numbers of valid dates lie strictly between -100 000 000 and
/// 100 000 000.
pub proof fn lemma_numero_acotado(f: Fecha)
    requires
        f.valida(),
    ensures
        -100_000_000 < f.numero() < 100_000_000,
{
    let p = f.anio as int - 1;
    assert(-262144 <= p <= 262141);
    assert(-65536 <= p / 4 <= 65536);
    assert(-2622 <= p / 100 <= 2622);
    assert(-656 <= p / 400 <= 656);
    assert(0 <= dias_antes_del_mes(f.anio as int, f.mes as int) <= 335);
    assert(f.dia <= 31);
}

/// Whole years between two dates, anniversary-aware.
pub fn calcular_anios(desde: &Fecha, hasta: &Fecha) -> (r: i32)
    requires
        desde.valida(),
        hasta.valida(),
    ensures
        r as int == anios_entre(*desde, *hasta),
{
    let anos: i32 = hasta.anio - desde.anio;
    if hasta.mes < desde.mes || (hasta.mes == desde.mes && hasta.dia < desde.dia) {
        anos - 1
    } else {
        anos
    }
}

/// Counts the business days among the day numbers `a..=b`.
pub fn contar_dias_habiles(a: i32, b: i32) -> (r: i32)
    requires
        a <= b,
        -100_000_000 < a,
        b < 100_000_000,
    ensures
        r as int == dias_habiles(a as int, b as int),
{
    let mut n: i32 = a;
    let mut cuenta: i32 = 0;
    loop
        invariant
            -100_000_000 < a <= n <= b < 100_000_000,
            0 <= cuenta <= n - a,
            cuenta as int == dias_habiles(a as int, n as int - 1),
        decreases b - n,
    {
        let semana: i64 = (n as i64 + 700_000_006) % 7;
        proof {
            vstd::arithmetic::div_mod::lemma_mod_multiples_vanish(100_000_000, n as int + 6, 7);
        }
        assert(semana == dia_de_semana(n as int));
        if semana < 5 {
            cuenta = cuenta + 1;
        }
        assert(dias_habiles(a as int, n as int) == dias_habiles(a as int, n as int - 1) + if es_laborable(n as int) { 1int } else { 0int });
        if n == b {
            return cuenta;
        }
        n = n + 1;
    }
}

} // verus!
