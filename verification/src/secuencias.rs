//! Búsqueda y conteo sobre secuencias, con los lemas que usan los
//! recorridos ejecutables de los otros módulos.

use vstd::prelude::*;

verus! {

/// Posición de la primera aparición que cumple `p`, si la hay.
pub open spec fn indice_primero<T>(s: Seq<T>, p: spec_fn(T) -> bool) -> Option<int>
    decreases s.len(),
{
    if s.len() == 0 {
        None
    } else if p(s[0]) {
        Some(0)
    } else {
        match indice_primero(s.skip(1), p) {
            Some(i) => Some(i + 1),
            None => None,
        }
    }
}

/// Hay alguna aparición que cumple `p`.
pub open spec fn hay_alguno<T>(s: Seq<T>, p: spec_fn(T) -> bool) -> bool {
    indice_primero(s, p) is Some
}

/// Cuántos elementos de `s` cumplen `p`.
pub open spec fn cuantos<T>(s: Seq<T>, p: spec_fn(T) -> bool) -> nat
    decreases s.len(),
{
    if s.len() == 0 {
        0
    } else {
        cuantos(s.drop_last(), p) + if p(s.last()) {
            1nat
        } else {
            0nat
        }
    }
}

/// La primera aparición está donde se la encontró: si nada coincide antes de
/// `i` y `s[i]` coincide, la primera aparición es `i`.
pub proof fn lema_indice_primero_en<T>(s: Seq<T>, p: spec_fn(T) -> bool, i: int)
    requires
        0 <= i < s.len(),
        p(s[i]),
        forall|j: int| 0 <= j < i ==> !p(s[j]),
    ensures
        indice_primero(s, p) == Some(i),
    decreases i,
{
    if i > 0 {
        lema_indice_primero_en(s.skip(1), p, i - 1);
    }
}

/// Si nada coincide, no hay primera aparición.
pub proof fn lema_indice_primero_ninguno<T>(s: Seq<T>, p: spec_fn(T) -> bool)
    requires
        forall|j: int| 0 <= j < s.len() ==> !p(s[j]),
    ensures
        indice_primero(s, p) is None,
    decreases s.len(),
{
    if s.len() > 0 {
        lema_indice_primero_ninguno(s.skip(1), p);
    }
}

/// La primera aparición coincide y nada coincide antes.
pub proof fn lema_indice_primero_coincide<T>(s: Seq<T>, p: spec_fn(T) -> bool)
    ensures
        match indice_primero(s, p) {
            Some(i) => 0 <= i < s.len() && p(s[i]) && forall|j: int| 0 <= j < i ==> !p(s[j]),
            None => forall|j: int| 0 <= j < s.len() ==> !p(s[j]),
        },
    decreases s.len(),
{
    if s.len() > 0 && !p(s[0]) {
        lema_indice_primero_coincide(s.skip(1), p);
        match indice_primero(s.skip(1), p) {
            Some(i) => {
                assert(s.skip(1)[i] == s[i + 1]);
                assert forall|j: int| 0 <= j < i + 1 implies !p(s[j]) by {
                    if j >= 1 {
                        assert(s.skip(1)[j - 1] == s[j]);
                        assert(!p(s.skip(1)[j - 1]));
                    }
                }
            },
            None => {
                assert forall|j: int| 0 <= j < s.len() implies !p(s[j]) by {
                    if j >= 1 {
                        assert(s.skip(1)[j - 1] == s[j]);
                        assert(!p(s.skip(1)[j - 1]));
                    }
                }
            },
        }
    }
}

/// El conteo sobre un prefijo crece en uno exactamente en las apariciones.
pub proof fn lema_cuantos_paso<T>(s: Seq<T>, p: spec_fn(T) -> bool, i: int)
    requires
        0 <= i < s.len(),
    ensures
        cuantos(s.take(i + 1), p) == cuantos(s.take(i), p) + if p(s[i]) {
            1int
        } else {
            0int
        },
{
    assert(s.take(i + 1).drop_last() =~= s.take(i));
    assert(s.take(i + 1).last() == s[i]);
}

/// El prefijo completo es la secuencia entera.
pub proof fn lema_cuantos_todo<T>(s: Seq<T>, p: spec_fn(T) -> bool)
    ensures
        cuantos(s.take(s.len() as int), p) == cuantos(s, p),
{
    assert(s.take(s.len() as int) =~= s);
}

/// Un conteo positivo tiene un testigo.
pub proof fn lema_cuantos_testigo<T>(s: Seq<T>, p: spec_fn(T) -> bool)
    requires
        cuantos(s, p) >= 1,
    ensures
        exists|k: int| 0 <= k < s.len() && p(s[k]),
    decreases s.len(),
{
    if p(s.last()) {
        assert(p(s[s.len() - 1]));
    } else {
        lema_cuantos_testigo(s.drop_last(), p);
        let k = choose|k: int| 0 <= k < s.drop_last().len() && p(s.drop_last()[k]);
        assert(p(s[k]));
    }
}

/// Una aparición da un conteo positivo.
pub proof fn lema_cuantos_positivo<T>(s: Seq<T>, p: spec_fn(T) -> bool, k: int)
    requires
        0 <= k < s.len(),
        p(s[k]),
    ensures
        cuantos(s, p) >= 1,
    decreases s.len(),
{
    if k < s.len() - 1 {
        assert(s.drop_last()[k] == s[k]);
        lema_cuantos_positivo(s.drop_last(), p, k);
    }
}

/// Dos criterios que coinciden sobre los elementos de `s` cuentan lo mismo.
pub proof fn lema_cuantos_mismo_criterio<T>(s: Seq<T>, p1: spec_fn(T) -> bool, p2: spec_fn(
    T,
) -> bool)
    requires
        forall|k: int| 0 <= k < s.len() ==> p1(s[k]) == p2(s[k]),
    ensures
        cuantos(s, p1) == cuantos(s, p2),
    decreases s.len(),
{
    if s.len() > 0 {
        assert(forall|k: int|
            0 <= k < s.drop_last().len() ==> s.drop_last()[k] == s[k] && p1(s[k]) == p2(s[k]));
        lema_cuantos_mismo_criterio(s.drop_last(), p1, p2);
        assert(p1(s.last()) == p2(s.last()));
    }
}

} // verus!
