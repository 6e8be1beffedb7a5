//! Fechas de calendario con regla de bisiesto simplificada.
//!
//! Una fecha es un triple día/mes/año de enteros. La construcción no valida
//! nada: la validez se comprueba a pedido con `es_fecha_valida`. Un mes fuera
//! de 1..=12 tiene 0 días, de modo que ninguna fecha con ese mes es válida.
//! La regla de bisiesto es la simplificada: año múltiplo de 4, sin la
//! excepción gregoriana de los siglos (los años 0 y 100 son bisiestos).

use vstd::prelude::*;

verus! {

/// Una fecha de calendario: día, mes y año.
#[derive(Clone, Copy, PartialEq, Eq, Structural, Debug)]
pub struct Fecha {
    pub dia: u32,
    pub mes: u32,
    pub anio: u32,
}

/// Regla simplificada: es bisiesto todo año múltiplo de 4.
pub open spec fn es_bisiesto_el_anio(anio: int) -> bool {
    anio % 4 == 0
}

/// Días que tiene `mes` dentro de `anio`; 0 si `mes` está fuera de 1..=12.
pub open spec fn dias_del_mes(mes: int, anio: int) -> int {
    if mes == 1 {
        31
    } else if mes == 2 {
        if es_bisiesto_el_anio(anio) {
            29
        } else {
            28
        }
    } else if mes == 3 {
        31
    } else if mes == 4 {
        30
    } else if mes == 5 {
        31
    } else if mes == 6 {
        30
    } else if mes == 7 {
        31
    } else if mes == 8 {
        31
    } else if mes == 9 {
        30
    } else if mes == 10 {
        31
    } else if mes == 11 {
        30
    } else if mes == 12 {
        31
    } else {
        0
    }
}

/// Una fecha es válida cuando su día cae entre 1 y los días de su mes.
pub open spec fn es_valida(f: Fecha) -> bool {
    1 <= f.dia && f.dia as int <= dias_del_mes(f.mes as int, f.anio as int)
}

pub open spec fn dias_del_anio(anio: int) -> int {
    if es_bisiesto_el_anio(anio) {
        366
    } else {
        365
    }
}

/// Días acumulados por los meses anteriores a `mes` dentro de `anio`.
pub open spec fn dias_previos_por_meses(mes: int, anio: int) -> int
    decreases mes,
{
    if mes <= 1 {
        0
    } else {
        dias_previos_por_meses(mes - 1, anio) + dias_del_mes(mes - 1, anio)
    }
}

/// Días acumulados por los años anteriores a `anio`, contando desde el año 0.
pub open spec fn dias_previos_por_anios(anio: int) -> int
    decreases anio,
{
    if anio <= 0 {
        0
    } else {
        dias_previos_por_anios(anio - 1) + dias_del_anio(anio - 1)
    }
}

/// Número de día absoluto de una fecha: el 1 de enero del año 0 es el día 1.
/// Sobre las fechas válidas es una numeración sin huecos ni repeticiones.
pub open spec fn indice_dia(f: Fecha) -> int {
    dias_previos_por_anios(f.anio as int) + dias_previos_por_meses(f.mes as int, f.anio as int)
        + f.dia
}

/// Orden lexicográfico estricto por (año, mes, día).
pub open spec fn es_posterior(a: Fecha, b: Fecha) -> bool {
    ||| a.anio > b.anio
    ||| (a.anio == b.anio && a.mes > b.mes)
    ||| (a.anio == b.anio && a.mes == b.mes && a.dia > b.dia)
}

proof fn lema_meses_no_decrece(anio: int, m1: int, m2: int)
    requires
        1 <= m1 <= m2 <= 13,
    ensures
        dias_previos_por_meses(m1, anio) <= dias_previos_por_meses(m2, anio),
    decreases m2 - m1,
{
    if m1 < m2 {
        lema_meses_no_decrece(anio, m1, m2 - 1);
        assert(dias_del_mes(m2 - 1, anio) >= 0);
    }
}

proof fn lema_anios_crece(a1: int, a2: int)
    requires
        0 <= a1 <= a2,
    ensures
        dias_previos_por_anios(a1) <= dias_previos_por_anios(a2),
        a1 < a2 ==> dias_previos_por_anios(a1) + 365 <= dias_previos_por_anios(a2),
    decreases a2 - a1,
{
    if a1 < a2 {
        lema_anios_crece(a1, a2 - 1);
        assert(dias_del_anio(a2 - 1) >= 365);
    }
}

/// La suma de los doce meses de un año da los días del año.
proof fn lema_dias_previos_trece(anio: int)
    ensures
        dias_previos_por_meses(13, anio) == dias_del_anio(anio),
{
    reveal_with_fuel(dias_previos_por_meses, 13);
}

/// Dentro de su año, una fecha válida cae entre el día 1 y el último del año.
proof fn lema_cota_en_el_anio(f: Fecha)
    requires
        es_valida(f),
    ensures
        1 <= dias_previos_por_meses(f.mes as int, f.anio as int) + f.dia,
        dias_previos_por_meses(f.mes as int, f.anio as int) + f.dia <= dias_del_anio(
            f.anio as int,
        ),
{
    let mes = f.mes as int;
    let anio = f.anio as int;
    assert(1 <= mes <= 12);
    lema_meses_no_decrece(anio, 1, mes);
    assert(dias_previos_por_meses(mes + 1, anio) == dias_previos_por_meses(mes, anio)
        + dias_del_mes(mes, anio));
    lema_meses_no_decrece(anio, mes + 1, 13);
    lema_dias_previos_trece(anio);
}

/// Toda fecha válida tiene número de día positivo.
pub proof fn lema_indice_dia_positivo(f: Fecha)
    requires
        es_valida(f),
    ensures
        indice_dia(f) >= 1,
{
    lema_anios_crece(0, f.anio as int);
    lema_cota_en_el_anio(f);
}

/// Entre fechas válidas, el orden lexicográfico por (año, mes, día) coincide
/// con el orden de los números de día.
pub proof fn lema_indice_dia_crece(a: Fecha, b: Fecha)
    requires
        es_valida(a),
        es_valida(b),
        es_posterior(b, a),
    ensures
        indice_dia(a) < indice_dia(b),
{
    lema_cota_en_el_anio(a);
    lema_cota_en_el_anio(b);
    if a.anio < b.anio {
        lema_dias_previos_trece(a.anio as int);
        assert(dias_previos_por_anios(a.anio as int + 1) == dias_previos_por_anios(a.anio as int)
            + dias_del_anio(a.anio as int));
        lema_anios_crece(a.anio as int + 1, b.anio as int);
    } else if a.mes < b.mes {
        let anio = a.anio as int;
        assert(dias_previos_por_meses(a.mes as int + 1, anio) == dias_previos_por_meses(
            a.mes as int,
            anio,
        ) + dias_del_mes(a.mes as int, anio));
        lema_meses_no_decrece(anio, a.mes as int + 1, b.mes as int);
    }
}

/// El número de día identifica a cada fecha válida: dos fechas válidas con el
/// mismo número de día son la misma fecha.
pub proof fn lema_indice_dia_inyectivo(a: Fecha, b: Fecha)
    requires
        es_valida(a),
        es_valida(b),
        indice_dia(a) == indice_dia(b),
    ensures
        a == b,
{
    if es_posterior(a, b) {
        lema_indice_dia_crece(b, a);
    } else if es_posterior(b, a) {
        lema_indice_dia_crece(a, b);
    }
}

/// Ida y vuelta: si a una fecha válida se le suman `n` días y al resultado se
/// le restan `n` días, y ambos pasos conservan la validez y corren el número
/// de día en `n`, se vuelve exactamente a la fecha original.
pub proof fn lema_sumar_restar_dias(original: Fecha, tras_sumar: Fecha, tras_restar: Fecha, n: u32)
    requires
        es_valida(original),
        es_valida(tras_sumar),
        es_valida(tras_restar),
        indice_dia(tras_sumar) == indice_dia(original) + n,
        indice_dia(tras_restar) == indice_dia(tras_sumar) - n,
    ensures
        tras_restar == original,
{
    lema_indice_dia_inyectivo(tras_restar, original);
}

impl Fecha {
    /// Construye la fecha tal cual, sin validar los campos.
    pub fn new(dia: u32, mes: u32, anio: u32) -> (f: Fecha)
        ensures
            f == (Fecha { dia, mes, anio }),
    {
        Fecha { dia, mes, anio }
    }

    pub fn es_bisiesto(&self) -> (r: bool)
        ensures
            r == es_bisiesto_el_anio(self.anio as int),
    {
        self.anio % 4 == 0
    }

    /// Cantidad de días del mes de esta fecha; 0 si el mes no existe.
    pub fn obtener_dias_para_mes(&self) -> (r: u32)
        ensures
            r as int == dias_del_mes(self.mes as int, self.anio as int),
    {
        if self.mes > 12 || self.mes < 1 {
            return 0;
        }
        let base: u32 = match self.mes {
            1 => 31,
            2 => 28,
            3 => 31,
            4 => 30,
            5 => 31,
            6 => 30,
            7 => 31,
            8 => 31,
            9 => 30,
            10 => 31,
            11 => 30,
            _ => 31,
        };
        if self.mes == 2 && self.es_bisiesto() {
            base + 1
        } else {
            base
        }
    }

    pub fn es_fecha_valida(&self) -> (r: bool)
        ensures
            r == es_valida(*self),
    {
        self.dia <= self.obtener_dias_para_mes() && self.dia > 0
    }

    /// Avanza la fecha `dias` días, mes a mes. Pide una fecha de partida
    /// válida (con un mes inexistente el recorrido quedaría sin sentido) y
    /// que el año no pueda desbordar su entero.
    pub fn sumar_dias(&mut self, dias: u32)
        requires
            es_valida(*old(self)),
            old(self).anio + dias <= u32::MAX,
        ensures
            es_valida(*final(self)),
            indice_dia(*final(self)) == indice_dia(*old(self)) + dias,
            dias == 0 ==> *final(self) == *old(self),
    {
        let mut dias_restantes: u32 = dias;
        while dias_restantes > 0
            invariant
                es_valida(*self),
                indice_dia(*self) + dias_restantes == indice_dia(*old(self)) + dias,
                self.anio + dias_restantes <= u32::MAX,
            decreases dias_restantes,
        {
            let dias_en_mes = self.obtener_dias_para_mes();
            // Se suma 1 porque el día actual también cuenta.
            let dias_hasta_fin_de_mes = dias_en_mes - self.dia + 1;

            if dias_hasta_fin_de_mes > dias_restantes {
                self.dia = self.dia + dias_restantes;
                dias_restantes = 0;
            } else {
                dias_restantes = dias_restantes - dias_hasta_fin_de_mes;
                let mes_viejo = self.mes;
                let anio_viejo = self.anio;
                self.mes = self.mes + 1;
                if self.mes > 12 {
                    self.mes = 1;
                    self.anio = self.anio + 1;
                }
                self.dia = 1;
                proof {
                    if mes_viejo == 12 {
                        lema_dias_previos_trece(anio_viejo as int);
                        assert(dias_previos_por_meses(13, anio_viejo as int)
                            == dias_previos_por_meses(12, anio_viejo as int) + dias_del_mes(
                            12,
                            anio_viejo as int,
                        ));
                    } else {
                        assert(dias_previos_por_meses(mes_viejo as int + 1, anio_viejo as int)
                            == dias_previos_por_meses(mes_viejo as int, anio_viejo as int)
                            + dias_del_mes(mes_viejo as int, anio_viejo as int));
                    }
                }
            }
        }
        proof {
            if dias == 0 {
                lema_indice_dia_inyectivo(*self, *old(self));
            }
        }
    }

    /// Retrocede la fecha `dias` días, mes a mes. Pide una fecha de partida
    /// válida y que el recorrido no pase del día 1 del año 0 (el primer día
    /// numerado), con lo que el año nunca queda por debajo de cero.
    pub fn restar_dias(&mut self, dias: u32)
        requires
            es_valida(*old(self)),
            dias < indice_dia(*old(self)),
        ensures
            es_valida(*final(self)),
            indice_dia(*final(self)) == indice_dia(*old(self)) - dias,
            dias == 0 ==> *final(self) == *old(self),
    {
        let mut dias_restantes: u32 = dias;
        while dias_restantes > 0
            invariant
                es_valida(*self),
                indice_dia(*self) - dias_restantes == indice_dia(*old(self)) - dias,
                dias_restantes < indice_dia(*self),
            decreases dias_restantes,
        {
            if self.dia > dias_restantes {
                self.dia = self.dia - dias_restantes;
                dias_restantes = 0;
            } else {
                dias_restantes = dias_restantes - self.dia;
                let mes_viejo = self.mes;
                let anio_viejo = self.anio;
                proof {
                    if mes_viejo == 1 && anio_viejo == 0 {
                        // Imposible: el número de día sería el propio día,
                        // y la invariante lo dejaría por debajo de 1.
                        assert(dias_previos_por_anios(0) == 0);
                        assert(dias_previos_por_meses(1, 0) == 0);
                        assert(false);
                    }
                }
                self.mes = self.mes - 1;
                if self.mes == 0 {
                    self.mes = 12;
                    self.anio = self.anio - 1;
                }
                self.dia = self.obtener_dias_para_mes();
                proof {
                    if mes_viejo == 1 {
                        lema_dias_previos_trece(self.anio as int);
                        assert(dias_previos_por_meses(13, self.anio as int)
                            == dias_previos_por_meses(12, self.anio as int) + dias_del_mes(
                            12,
                            self.anio as int,
                        ));
                        assert(dias_previos_por_anios(anio_viejo as int) == dias_previos_por_anios(
                            self.anio as int,
                        ) + dias_del_anio(self.anio as int));
                        assert(dias_previos_por_meses(1, anio_viejo as int) == 0);
                    } else {
                        assert(dias_previos_por_meses(mes_viejo as int, anio_viejo as int)
                            == dias_previos_por_meses(mes_viejo as int - 1, anio_viejo as int)
                            + dias_del_mes(mes_viejo as int - 1, anio_viejo as int));
                    }
                }
            }
        }
        proof {
            if dias == 0 {
                lema_indice_dia_inyectivo(*self, *old(self));
            }
        }
    }

    /// Verdadero si esta fecha es estrictamente posterior a `una_fecha`,
    /// comparando año, luego mes y luego día.
    pub fn es_mayor(&self, una_fecha: &Fecha) -> (r: bool)
        ensures
            r == es_posterior(*self, *una_fecha),
    {
        (self.anio > una_fecha.anio) || (self.anio == una_fecha.anio && self.mes > una_fecha.mes)
            || (self.anio == una_fecha.anio && self.mes == una_fecha.mes && self.dia
            > una_fecha.dia)
    }
}

} // verus!
