//! Servicio de streaming: usuarios, suscripciones y packs contratados.
//!
//! El estado es un registro de tres listas. Las búsquedas devuelven la
//! primera aparición, y las estadísticas cuentan apariciones y entregan un
//! elemento de frecuencia máxima (ante un empate, cualquiera de los
//! empatados cumple el contrato).

use vstd::prelude::*;

use crate::fecha::Fecha;
use crate::secuencias::{
    cuantos, hay_alguno, indice_primero, lema_cuantos_mismo_criterio, lema_cuantos_paso,
    lema_cuantos_positivo, lema_cuantos_testigo, lema_cuantos_todo, lema_indice_primero_coincide,
    lema_indice_primero_en, lema_indice_primero_ninguno,
};

verus! {

#[derive(Clone, Copy, PartialEq, Eq, Structural, Debug)]
pub enum EstadoSuscripcion {
    Activa,
    Inactiva,
}

#[derive(Clone, Copy, PartialEq, Eq, Structural, Debug)]
pub enum TipoSuscripcion {
    Basic,
    Clasic,
    Super,
}

#[derive(Debug)]
pub enum MetodoPago {
    Efectivo,
    MercadoPago { id_cuenta: String },
    Credito { numero_tarjeta: String, expiracion: String },
    TransferenciaBancaria { cuenta_bancaria: String },
    Cripto { billetera: String },
}

/// Dos métodos de pago cuentan como el mismo cuando coinciden la variante y
/// el contenido de sus campos.
pub open spec fn mismo_metodo(a: MetodoPago, b: MetodoPago) -> bool {
    match (a, b) {
        (MetodoPago::Efectivo, MetodoPago::Efectivo) => true,
        (
            MetodoPago::MercadoPago { id_cuenta: c1 },
            MetodoPago::MercadoPago { id_cuenta: c2 },
        ) => c1@ == c2@,
        (
            MetodoPago::Credito { numero_tarjeta: t1, expiracion: e1 },
            MetodoPago::Credito { numero_tarjeta: t2, expiracion: e2 },
        ) => t1@ == t2@ && e1@ == e2@,
        (
            MetodoPago::TransferenciaBancaria { cuenta_bancaria: c1 },
            MetodoPago::TransferenciaBancaria { cuenta_bancaria: c2 },
        ) => c1@ == c2@,
        (MetodoPago::Cripto { billetera: b1 }, MetodoPago::Cripto { billetera: b2 }) => b1@ == b2@,
        _ => false,
    }
}

impl PartialEq for MetodoPago {
    fn eq(&self, other: &Self) -> (r: bool) {
        match (self, other) {
            (MetodoPago::Efectivo, MetodoPago::Efectivo) => true,
            (
                MetodoPago::MercadoPago { id_cuenta: c1 },
                MetodoPago::MercadoPago { id_cuenta: c2 },
            ) => *c1 == *c2,
            (
                MetodoPago::Credito { numero_tarjeta: t1, expiracion: e1 },
                MetodoPago::Credito { numero_tarjeta: t2, expiracion: e2 },
            ) => *t1 == *t2 && *e1 == *e2,
            (
                MetodoPago::TransferenciaBancaria { cuenta_bancaria: c1 },
                MetodoPago::TransferenciaBancaria { cuenta_bancaria: c2 },
            ) => *c1 == *c2,
            (
                MetodoPago::Cripto { billetera: b1 },
                MetodoPago::Cripto { billetera: b2 },
            ) => *b1 == *b2,
            _ => false,
        }
    }
}

impl vstd::std_specs::cmp::PartialEqSpecImpl for MetodoPago {
    open spec fn obeys_eq_spec() -> bool {
        true
    }

    open spec fn eq_spec(&self, other: &Self) -> bool {
        mismo_metodo(*self, *other)
    }
}

impl Clone for MetodoPago {
    fn clone(&self) -> (r: Self)
        ensures
            r == *self,
    {
        match self {
            MetodoPago::Efectivo => MetodoPago::Efectivo,
            MetodoPago::MercadoPago { id_cuenta } => MetodoPago::MercadoPago {
                id_cuenta: id_cuenta.clone(),
            },
            MetodoPago::Credito { numero_tarjeta, expiracion } => MetodoPago::Credito {
                numero_tarjeta: numero_tarjeta.clone(),
                expiracion: expiracion.clone(),
            },
            MetodoPago::TransferenciaBancaria { cuenta_bancaria } =>
                MetodoPago::TransferenciaBancaria { cuenta_bancaria: cuenta_bancaria.clone() },
            MetodoPago::Cripto { billetera } => MetodoPago::Cripto {
                billetera: billetera.clone(),
            },
        }
    }
}

pub struct Usuario {
    pub id: u32,
    pub nombre: String,
    pub metodo_pago: MetodoPago,
}

impl Usuario {
    pub fn new(id: u32, nombre: String, metodo_pago: MetodoPago) -> (u: Usuario)
        ensures
            u == (Usuario { id, nombre, metodo_pago }),
    {
        Usuario { id, nombre, metodo_pago }
    }
}

#[derive(Clone, Copy, PartialEq, Eq, Structural, Debug)]
pub struct Suscripcion {
    pub tipo_suscripcion: TipoSuscripcion,
    pub estado: EstadoSuscripcion,
    pub duracion_meses: u32,
    pub fecha_inicio: Fecha,
    pub id_usuario: u32,
}

pub open spec fn es_activa(s: Suscripcion) -> bool {
    s.estado == EstadoSuscripcion::Activa
}

/// Suscripción tras una mejora: sube un escalón y `Super` queda igual.
pub open spec fn con_upgrade(s: Suscripcion) -> Suscripcion {
    Suscripcion {
        tipo_suscripcion: match s.tipo_suscripcion {
            TipoSuscripcion::Basic => TipoSuscripcion::Clasic,
            TipoSuscripcion::Clasic => TipoSuscripcion::Super,
            TipoSuscripcion::Super => TipoSuscripcion::Super,
        },
        ..s
    }
}

/// Suscripción tras una rebaja: baja un escalón y desde `Basic` se cancela.
pub open spec fn con_downgrade(s: Suscripcion) -> Suscripcion {
    match s.tipo_suscripcion {
        TipoSuscripcion::Super => Suscripcion { tipo_suscripcion: TipoSuscripcion::Clasic, ..s },
        TipoSuscripcion::Clasic => Suscripcion { tipo_suscripcion: TipoSuscripcion::Basic, ..s },
        TipoSuscripcion::Basic => Suscripcion { estado: EstadoSuscripcion::Inactiva, ..s },
    }
}

pub open spec fn cancelada(s: Suscripcion) -> Suscripcion {
    Suscripcion { estado: EstadoSuscripcion::Inactiva, ..s }
}

impl Suscripcion {
    /// Una suscripción nueva arranca activa en la fecha dada.
    pub fn new(
        tipo_suscripcion: TipoSuscripcion,
        duracion_meses: u32,
        id_usuario: u32,
        fecha_inicio: Fecha,
    ) -> (s: Suscripcion)
        ensures
            s == (Suscripcion {
                tipo_suscripcion,
                estado: EstadoSuscripcion::Activa,
                duracion_meses,
                fecha_inicio,
                id_usuario,
            }),
    {
        Suscripcion {
            estado: EstadoSuscripcion::Activa,
            fecha_inicio,
            tipo_suscripcion,
            duracion_meses,
            id_usuario,
        }
    }

    pub fn upgrade(&mut self)
        ensures
            *final(self) == con_upgrade(*old(self)),
    {
        self.tipo_suscripcion = match self.tipo_suscripcion {
            TipoSuscripcion::Basic => TipoSuscripcion::Clasic,
            TipoSuscripcion::Clasic => TipoSuscripcion::Super,
            TipoSuscripcion::Super => TipoSuscripcion::Super,
        };
    }

    pub fn downgrade(&mut self)
        ensures
            *final(self) == con_downgrade(*old(self)),
    {
        match self.tipo_suscripcion {
            TipoSuscripcion::Super => self.tipo_suscripcion = TipoSuscripcion::Clasic,
            TipoSuscripcion::Clasic => self.tipo_suscripcion = TipoSuscripcion::Basic,
            TipoSuscripcion::Basic => self.cancel(),
        }
    }

    pub fn cancel(&mut self)
        ensures
            *final(self) == cancelada(*old(self)),
    {
        self.estado = EstadoSuscripcion::Inactiva;
    }

    pub fn esta_activa(&self) -> (r: bool)
        ensures
            r == es_activa(*self),
    {
        self.estado == EstadoSuscripcion::Activa
    }
}

#[derive(PartialEq, Eq, Debug)]
pub struct Video {
    pub titulo: String,
    pub anio: u32,
    pub genero: String,
    pub duracion: u32,
}

#[derive(Debug)]
pub enum TipoPack {
    Futbol,
    EstrenosExclusivos(Vec<Video>),
    Familiar([u32; 5]),
}

/// Dos packs cuentan como el mismo tipo cuando coinciden las variantes,
/// sin mirar los valores que llevan adentro.
pub open spec fn mismo_tipo_pack(a: TipoPack, b: TipoPack) -> bool {
    match (a, b) {
        (TipoPack::Futbol, TipoPack::Futbol) => true,
        (TipoPack::EstrenosExclusivos(_), TipoPack::EstrenosExclusivos(_)) => true,
        (TipoPack::Familiar(_), TipoPack::Familiar(_)) => true,
        _ => false,
    }
}

impl PartialEq for TipoPack {
    fn eq(&self, other: &Self) -> (r: bool) {
        match (self, other) {
            (TipoPack::Futbol, TipoPack::Futbol) => true,
            (TipoPack::EstrenosExclusivos(_), TipoPack::EstrenosExclusivos(_)) => true,
            (TipoPack::Familiar(_), TipoPack::Familiar(_)) => true,
            _ => false,
        }
    }
}

impl vstd::std_specs::cmp::PartialEqSpecImpl for TipoPack {
    open spec fn obeys_eq_spec() -> bool {
        true
    }

    open spec fn eq_spec(&self, other: &Self) -> bool {
        mismo_tipo_pack(*self, *other)
    }
}

pub struct Pack {
    pub id_usuario: u32,
    pub metodo_pago: MetodoPago,
    pub tipo_pack: TipoPack,
}

impl Pack {
    pub fn new(tipo_pack: TipoPack, id_usuario: u32, metodo_pago: MetodoPago) -> (p: Pack)
        ensures
            p == (Pack { id_usuario, metodo_pago, tipo_pack }),
    {
        Pack { id_usuario, tipo_pack, metodo_pago }
    }
}

// Criterios de búsqueda sobre las tres listas.

pub open spec fn con_id_de_usuario(id_usuario: u32) -> spec_fn(Usuario) -> bool {
    |u: Usuario| u.id == id_usuario
}

pub open spec fn suscripcion_de(id_usuario: u32) -> spec_fn(Suscripcion) -> bool {
    |s: Suscripcion| s.id_usuario == id_usuario
}

pub open spec fn suscripcion_activa_de(id_usuario: u32) -> spec_fn(Suscripcion) -> bool {
    |s: Suscripcion| s.id_usuario == id_usuario && es_activa(s)
}

pub open spec fn pack_de(id_usuario: u32, tipo_pack: TipoPack) -> spec_fn(Pack) -> bool {
    |p: Pack| p.id_usuario == id_usuario && mismo_tipo_pack(p.tipo_pack, tipo_pack)
}

pub open spec fn tiene_usuario(s: Seq<Usuario>, id_usuario: u32) -> bool {
    hay_alguno(s, con_id_de_usuario(id_usuario))
}

pub open spec fn tiene_suscripcion(s: Seq<Suscripcion>, id_usuario: u32) -> bool {
    hay_alguno(s, suscripcion_de(id_usuario))
}

pub open spec fn tiene_suscripcion_activa(s: Seq<Suscripcion>, id_usuario: u32) -> bool {
    hay_alguno(s, suscripcion_activa_de(id_usuario))
}

pub open spec fn tiene_pack(s: Seq<Pack>, id_usuario: u32, tipo_pack: TipoPack) -> bool {
    hay_alguno(s, pack_de(id_usuario, tipo_pack))
}

// Proyecciones que alimentan las estadísticas.

/// Métodos de pago de todos los usuarios, en orden.
pub open spec fn metodos_de_usuarios(usuarios: Seq<Usuario>) -> Seq<MetodoPago>
    decreases usuarios.len(),
{
    if usuarios.len() == 0 {
        Seq::empty()
    } else {
        metodos_de_usuarios(usuarios.drop_last()).push(usuarios.last().metodo_pago)
    }
}

/// Por cada suscripción activa cuyo usuario figura en la lista, el método de
/// pago de ese usuario, en el orden de las suscripciones.
pub open spec fn metodos_de_activos(
    suscripciones: Seq<Suscripcion>,
    usuarios: Seq<Usuario>,
) -> Seq<MetodoPago>
    decreases suscripciones.len(),
{
    if suscripciones.len() == 0 {
        Seq::empty()
    } else {
        let resto = metodos_de_activos(suscripciones.drop_last(), usuarios);
        let s = suscripciones.last();
        if es_activa(s) {
            match indice_primero(usuarios, con_id_de_usuario(s.id_usuario)) {
                Some(i) => resto.push(usuarios[i].metodo_pago),
                None => resto,
            }
        } else {
            resto
        }
    }
}

/// Tipos de todas las suscripciones, en orden.
pub open spec fn tipos_de_suscripciones(suscripciones: Seq<Suscripcion>) -> Seq<TipoSuscripcion>
    decreases suscripciones.len(),
{
    if suscripciones.len() == 0 {
        Seq::empty()
    } else {
        tipos_de_suscripciones(suscripciones.drop_last()).push(
            suscripciones.last().tipo_suscripcion,
        )
    }
}

/// Tipos de las suscripciones activas, en orden.
pub open spec fn tipos_de_activas(suscripciones: Seq<Suscripcion>) -> Seq<TipoSuscripcion>
    decreases suscripciones.len(),
{
    if suscripciones.len() == 0 {
        Seq::empty()
    } else {
        let resto = tipos_de_activas(suscripciones.drop_last());
        if es_activa(suscripciones.last()) {
            resto.push(suscripciones.last().tipo_suscripcion)
        } else {
            resto
        }
    }
}

pub open spec fn con_metodo(m: MetodoPago) -> spec_fn(MetodoPago) -> bool {
    |x: MetodoPago| mismo_metodo(x, m)
}

pub open spec fn con_tipo(t: TipoSuscripcion) -> spec_fn(TipoSuscripcion) -> bool {
    |x: TipoSuscripcion| x == t
}

/// Cuántas veces aparece el método `m` en `s`.
pub open spec fn veces_metodo(s: Seq<MetodoPago>, m: MetodoPago) -> nat {
    cuantos(s, con_metodo(m))
}

/// Cuántas veces aparece el tipo `t` en `s`.
pub open spec fn veces_tipo(s: Seq<TipoSuscripcion>, t: TipoSuscripcion) -> nat {
    cuantos(s, con_tipo(t))
}

proof fn lema_metodos_de_usuarios_largo(usuarios: Seq<Usuario>)
    ensures
        metodos_de_usuarios(usuarios).len() == usuarios.len(),
    decreases usuarios.len(),
{
    if usuarios.len() > 0 {
        lema_metodos_de_usuarios_largo(usuarios.drop_last());
    }
}

proof fn lema_tipos_de_suscripciones_largo(suscripciones: Seq<Suscripcion>)
    ensures
        tipos_de_suscripciones(suscripciones).len() == suscripciones.len(),
    decreases suscripciones.len(),
{
    if suscripciones.len() > 0 {
        lema_tipos_de_suscripciones_largo(suscripciones.drop_last());
    }
}

/// Ser el mismo método es una equivalencia: dos métodos iguales entre sí
/// coinciden frente a cualquier tercero.
proof fn lema_mismo_metodo_equivalencia(a: MetodoPago, b: MetodoPago, x: MetodoPago)
    requires
        mismo_metodo(a, b),
    ensures
        mismo_metodo(x, a) == mismo_metodo(x, b),
{
}

/// Cuenta cuántos elementos de `v` son el mismo método que `m`.
fn cuenta_metodo(v: &Vec<MetodoPago>, m: &MetodoPago) -> (c: usize)
    ensures
        c == veces_metodo(v@, *m),
{
    let mut c: usize = 0;
    let mut i: usize = 0;
    while i < v.len()
        invariant
            i <= v.len(),
            c <= i,
            c == cuantos(v@.take(i as int), con_metodo(*m)),
        decreases v.len() - i,
    {
        proof {
            lema_cuantos_paso(v@, con_metodo(*m), i as int);
        }
        if v[i].eq(m) {
            c = c + 1;
        }
        i = i + 1;
    }
    proof {
        lema_cuantos_todo(v@, con_metodo(*m));
    }
    c
}

/// Un método de frecuencia máxima en `v`, si `v` no está vacío.
fn metodo_mas_frecuente(v: &Vec<MetodoPago>) -> (r: Option<MetodoPago>)
    ensures
        r is Some <==> v@.len() > 0,
        r matches Some(m) ==> veces_metodo(v@, m) >= 1 && forall|otro: MetodoPago|
            veces_metodo(v@, otro) <= veces_metodo(v@, m),
{
    if v.len() == 0 {
        return None;
    }
    let mut mejor: usize = 0;
    let mut mejor_cuenta: usize = cuenta_metodo(v, &v[0]);
    proof {
        lema_cuantos_positivo(v@, con_metodo(v@[0]), 0);
    }
    let mut i: usize = 1;
    while i < v.len()
        invariant
            1 <= i <= v@.len(),
            mejor < v@.len(),
            mejor_cuenta == veces_metodo(v@, v@[mejor as int]),
            mejor_cuenta >= 1,
            forall|j: int| 0 <= j < i ==> veces_metodo(v@, v@[j]) <= mejor_cuenta,
        decreases v@.len() - i,
    {
        let c = cuenta_metodo(v, &v[i]);
        if c > mejor_cuenta {
            mejor = i;
            mejor_cuenta = c;
        }
        i = i + 1;
    }
    let m = v[mejor].clone();
    proof {
        assert forall|otro: MetodoPago| veces_metodo(v@, otro) <= veces_metodo(v@, m) by {
            if cuantos(v@, con_metodo(otro)) >= 1 {
                lema_cuantos_testigo(v@, con_metodo(otro));
                let k = choose|k: int| 0 <= k < v@.len() && con_metodo(otro)(v@[k]);
                assert forall|n: int| 0 <= n < v@.len() implies con_metodo(otro)(v@[n])
                    == con_metodo(v@[k])(v@[n]) by {
                    lema_mismo_metodo_equivalencia(v@[k], otro, v@[n]);
                }
                lema_cuantos_mismo_criterio(v@, con_metodo(otro), con_metodo(v@[k]));
            }
        }
    }
    Some(m)
}

/// Cuenta cuántos elementos de `v` son el tipo `t`.
fn cuenta_tipo(v: &Vec<TipoSuscripcion>, t: TipoSuscripcion) -> (c: usize)
    ensures
        c == veces_tipo(v@, t),
{
    let mut c: usize = 0;
    let mut i: usize = 0;
    while i < v.len()
        invariant
            i <= v.len(),
            c <= i,
            c == cuantos(v@.take(i as int), con_tipo(t)),
        decreases v.len() - i,
    {
        proof {
            lema_cuantos_paso(v@, con_tipo(t), i as int);
        }
        if v[i] == t {
            c = c + 1;
        }
        i = i + 1;
    }
    proof {
        lema_cuantos_todo(v@, con_tipo(t));
    }
    c
}

/// Un tipo de frecuencia máxima en `v`, si `v` no está vacío.
fn tipo_mas_frecuente(v: &Vec<TipoSuscripcion>) -> (r: Option<TipoSuscripcion>)
    ensures
        r is Some <==> v@.len() > 0,
        r matches Some(t) ==> veces_tipo(v@, t) >= 1 && forall|otro: TipoSuscripcion|
            veces_tipo(v@, otro) <= veces_tipo(v@, t),
{
    if v.len() == 0 {
        return None;
    }
    let mut mejor: usize = 0;
    let mut mejor_cuenta: usize = cuenta_tipo(v, v[0]);
    proof {
        lema_cuantos_positivo(v@, con_tipo(v@[0]), 0);
    }
    let mut i: usize = 1;
    while i < v.len()
        invariant
            1 <= i <= v@.len(),
            mejor < v@.len(),
            mejor_cuenta == veces_tipo(v@, v@[mejor as int]),
            mejor_cuenta >= 1,
            forall|j: int| 0 <= j < i ==> veces_tipo(v@, v@[j]) <= mejor_cuenta,
        decreases v@.len() - i,
    {
        let c = cuenta_tipo(v, v[i]);
        if c > mejor_cuenta {
            mejor = i;
            mejor_cuenta = c;
        }
        i = i + 1;
    }
    let t = v[mejor];
    proof {
        assert forall|otro: TipoSuscripcion| veces_tipo(v@, otro) <= veces_tipo(v@, t) by {
            if cuantos(v@, con_tipo(otro)) >= 1 {
                lema_cuantos_testigo(v@, con_tipo(otro));
                let k = choose|k: int| 0 <= k < v@.len() && con_tipo(otro)(v@[k]);
                lema_cuantos_mismo_criterio(v@, con_tipo(otro), con_tipo(v@[k]));
            }
        }
    }
    Some(t)
}

pub struct StreamingRust {
    pub usuarios: Vec<Usuario>,
    pub suscripciones: Vec<Suscripcion>,
    pub packs: Vec<Pack>,
}

impl StreamingRust {
    /// Un servicio sin usuarios, suscripciones ni packs.
    pub fn new() -> (s: StreamingRust)
        ensures
            s.usuarios@.len() == 0,
            s.suscripciones@.len() == 0,
            s.packs@.len() == 0,
    {
        StreamingRust { usuarios: Vec::new(), suscripciones: Vec::new(), packs: Vec::new() }
    }

    /// Agrega un usuario al final de la lista, sin mirar si el id ya estaba.
    pub fn crear_usuario(&mut self, id_usuario: u32, nombre: String, metodo_pago: MetodoPago)
        ensures
            final(self).usuarios@ == old(self).usuarios@.push(
                (Usuario { id: id_usuario, nombre, metodo_pago }),
            ),
            final(self).suscripciones@ == old(self).suscripciones@,
            final(self).packs@ == old(self).packs@,
    {
        let usuario = Usuario::new(id_usuario, nombre, metodo_pago);
        self.usuarios.push(usuario);
    }

    /// El primer usuario con ese id, si hay alguno.
    pub fn get_usuario(&self, id_usuario: u32) -> (r: Option<&Usuario>)
        ensures
            r is Some <==> tiene_usuario(self.usuarios@, id_usuario),
            r matches Some(u) ==> indice_primero(self.usuarios@, con_id_de_usuario(id_usuario))
                matches Some(i) && *u == self.usuarios@[i],
    {
        let mut i: usize = 0;
        while i < self.usuarios.len()
            invariant
                i <= self.usuarios@.len(),
                forall|j: int| 0 <= j < i ==> self.usuarios@[j].id != id_usuario,
            decreases self.usuarios@.len() - i,
        {
            if self.usuarios[i].id == id_usuario {
                proof {
                    lema_indice_primero_en(
                        self.usuarios@,
                        con_id_de_usuario(id_usuario),
                        i as int,
                    );
                }
                return Some(&self.usuarios[i]);
            }
            i = i + 1;
        }
        proof {
            lema_indice_primero_ninguno(self.usuarios@, con_id_de_usuario(id_usuario));
        }
        None
    }

    /// Posición de la primera suscripción (activa o no) de ese usuario.
    pub fn get_subscripcion(&self, id_usuario: u32) -> (r: Option<usize>)
        ensures
            match r {
                Some(i) => indice_primero(self.suscripciones@, suscripcion_de(id_usuario))
                    == Some(i as int),
                None => !tiene_suscripcion(self.suscripciones@, id_usuario),
            },
    {
        let mut i: usize = 0;
        while i < self.suscripciones.len()
            invariant
                i <= self.suscripciones@.len(),
                forall|j: int| 0 <= j < i ==> self.suscripciones@[j].id_usuario != id_usuario,
            decreases self.suscripciones@.len() - i,
        {
            if self.suscripciones[i].id_usuario == id_usuario {
                proof {
                    lema_indice_primero_en(
                        self.suscripciones@,
                        suscripcion_de(id_usuario),
                        i as int,
                    );
                }
                return Some(i);
            }
            i = i + 1;
        }
        proof {
            lema_indice_primero_ninguno(self.suscripciones@, suscripcion_de(id_usuario));
        }
        None
    }

    /// La primera suscripción activa de ese usuario, si hay alguna.
    pub fn get_subscripcion_activa(&self, id_usuario: u32) -> (r: Option<&Suscripcion>)
        ensures
            r is Some <==> tiene_suscripcion_activa(self.suscripciones@, id_usuario),
            r matches Some(s) ==> indice_primero(
                self.suscripciones@,
                suscripcion_activa_de(id_usuario),
            ) matches Some(i) && *s == self.suscripciones@[i],
    {
        let mut i: usize = 0;
        while i < self.suscripciones.len()
            invariant
                i <= self.suscripciones@.len(),
                forall|j: int|
                    0 <= j < i ==> !(self.suscripciones@[j].id_usuario == id_usuario && es_activa(
                        self.suscripciones@[j],
                    )),
            decreases self.suscripciones@.len() - i,
        {
            let s = self.suscripciones[i];
            if s.id_usuario == id_usuario && s.esta_activa() {
                proof {
                    lema_indice_primero_en(
                        self.suscripciones@,
                        suscripcion_activa_de(id_usuario),
                        i as int,
                    );
                }
                return Some(&self.suscripciones[i]);
            }
            i = i + 1;
        }
        proof {
            lema_indice_primero_ninguno(self.suscripciones@, suscripcion_activa_de(id_usuario));
        }
        None
    }

    /// Da de alta al usuario si no figuraba, y le abre una suscripción nueva
    /// si no tenía ninguna (activa o no).
    pub fn crear_subscripcion(
        &mut self,
        id_usuario: u32,
        nombre: String,
        tipo_suscripcion: TipoSuscripcion,
        duracion_meses: u32,
        metodo_pago: MetodoPago,
        fecha_inicio: Fecha,
    )
        ensures
            final(self).packs@ == old(self).packs@,
            tiene_usuario(old(self).usuarios@, id_usuario) ==> final(self).usuarios@ == old(
                self,
            ).usuarios@,
            !tiene_usuario(old(self).usuarios@, id_usuario) ==> final(self).usuarios@ == old(
                self,
            ).usuarios@.push((Usuario { id: id_usuario, nombre, metodo_pago })),
            tiene_suscripcion(old(self).suscripciones@, id_usuario) ==> final(self).suscripciones@
                == old(self).suscripciones@,
            !tiene_suscripcion(old(self).suscripciones@, id_usuario)
                ==> final(self).suscripciones@ == old(self).suscripciones@.push(
                (Suscripcion {
                    tipo_suscripcion,
                    estado: EstadoSuscripcion::Activa,
                    duracion_meses,
                    fecha_inicio,
                    id_usuario,
                }),
            ),
    {
        let existe_usuario = self.get_usuario(id_usuario).is_some();
        if !existe_usuario {
            self.crear_usuario(id_usuario, nombre, metodo_pago);
        }
        let tiene_sub = self.get_subscripcion(id_usuario).is_some();
        if !tiene_sub {
            let suscripcion = Suscripcion::new(
                tipo_suscripcion,
                duracion_meses,
                id_usuario,
                fecha_inicio,
            );
            self.suscripciones.push(suscripcion);
        }
    }

    /// Mejora la primera suscripción de ese usuario, si hay alguna.
    pub fn upgrade_subscripcion(&mut self, id_usuario: u32)
        ensures
            final(self).usuarios@ == old(self).usuarios@,
            final(self).packs@ == old(self).packs@,
            match indice_primero(old(self).suscripciones@, suscripcion_de(id_usuario)) {
                Some(i) => final(self).suscripciones@ == old(self).suscripciones@.update(
                    i,
                    con_upgrade(old(self).suscripciones@[i]),
                ),
                None => final(self).suscripciones@ == old(self).suscripciones@,
            },
    {
        if let Some(i) = self.get_subscripcion(id_usuario) {
            proof {
                lema_indice_primero_coincide(self.suscripciones@, suscripcion_de(id_usuario));
            }
            let mut s = self.suscripciones[i];
            s.upgrade();
            self.suscripciones[i] = s;
        }
    }

    /// Rebaja la primera suscripción de ese usuario, si hay alguna.
    pub fn downgrade_subscripcion(&mut self, id_usuario: u32)
        ensures
            final(self).usuarios@ == old(self).usuarios@,
            final(self).packs@ == old(self).packs@,
            match indice_primero(old(self).suscripciones@, suscripcion_de(id_usuario)) {
                Some(i) => final(self).suscripciones@ == old(self).suscripciones@.update(
                    i,
                    con_downgrade(old(self).suscripciones@[i]),
                ),
                None => final(self).suscripciones@ == old(self).suscripciones@,
            },
    {
        if let Some(i) = self.get_subscripcion(id_usuario) {
            proof {
                lema_indice_primero_coincide(self.suscripciones@, suscripcion_de(id_usuario));
            }
            let mut s = self.suscripciones[i];
            s.downgrade();
            self.suscripciones[i] = s;
        }
    }

    /// Cancela la primera suscripción de ese usuario, si hay alguna.
    pub fn cancel_subscripcion(&mut self, id_usuario: u32)
        ensures
            final(self).usuarios@ == old(self).usuarios@,
            final(self).packs@ == old(self).packs@,
            match indice_primero(old(self).suscripciones@, suscripcion_de(id_usuario)) {
                Some(i) => final(self).suscripciones@ == old(self).suscripciones@.update(
                    i,
                    cancelada(old(self).suscripciones@[i]),
                ),
                None => final(self).suscripciones@ == old(self).suscripciones@,
            },
    {
        if let Some(i) = self.get_subscripcion(id_usuario) {
            proof {
                lema_indice_primero_coincide(self.suscripciones@, suscripcion_de(id_usuario));
            }
            let mut s = self.suscripciones[i];
            s.cancel();
            self.suscripciones[i] = s;
        }
    }

    /// El primer pack de ese usuario con ese tipo (las variantes se comparan
    /// sin mirar su contenido), si hay alguno.
    pub fn get_pack(&self, id_usuario: u32, tipo_pack: &TipoPack) -> (r: Option<&Pack>)
        ensures
            r is Some <==> tiene_pack(self.packs@, id_usuario, *tipo_pack),
            r matches Some(p) ==> indice_primero(self.packs@, pack_de(id_usuario, *tipo_pack))
                matches Some(i) && *p == self.packs@[i],
    {
        let mut i: usize = 0;
        while i < self.packs.len()
            invariant
                i <= self.packs@.len(),
                forall|j: int|
                    0 <= j < i ==> !(self.packs@[j].id_usuario == id_usuario && mismo_tipo_pack(
                        self.packs@[j].tipo_pack,
                        *tipo_pack,
                    )),
            decreases self.packs@.len() - i,
        {
            if self.packs[i].id_usuario == id_usuario && self.packs[i].tipo_pack.eq(tipo_pack) {
                proof {
                    lema_indice_primero_en(self.packs@, pack_de(id_usuario, *tipo_pack), i as int);
                }
                return Some(&self.packs[i]);
            }
            i = i + 1;
        }
        proof {
            lema_indice_primero_ninguno(self.packs@, pack_de(id_usuario, *tipo_pack));
        }
        None
    }

    /// Contrata un pack para el usuario si tiene una suscripción activa y no
    /// tenía ya un pack del mismo tipo; si no, no cambia nada.
    pub fn contratar_pack(&mut self, id_usuario: u32, metodo_pago: MetodoPago, tipo_pack: TipoPack)
        ensures
            final(self).usuarios@ == old(self).usuarios@,
            final(self).suscripciones@ == old(self).suscripciones@,
            if tiene_suscripcion_activa(old(self).suscripciones@, id_usuario) && !tiene_pack(
                old(self).packs@,
                id_usuario,
                tipo_pack,
            ) {
                final(self).packs@ == old(self).packs@.push(
                    (Pack { id_usuario, metodo_pago, tipo_pack }),
                )
            } else {
                final(self).packs@ == old(self).packs@
            },
    {
        let hay_activa = self.get_subscripcion_activa(id_usuario).is_some();
        let ya_contratado = self.get_pack(id_usuario, &tipo_pack).is_some();
        if hay_activa && !ya_contratado {
            let pack = Pack::new(tipo_pack, id_usuario, metodo_pago);
            self.packs.push(pack);
        }
    }

    /// Métodos de pago de todos los usuarios, copiados en orden.
    fn metodos_de_todos(&self) -> (v: Vec<MetodoPago>)
        ensures
            v@ == metodos_de_usuarios(self.usuarios@),
    {
        let mut v: Vec<MetodoPago> = Vec::new();
        let mut i: usize = 0;
        while i < self.usuarios.len()
            invariant
                i <= self.usuarios@.len(),
                v@ == metodos_de_usuarios(self.usuarios@.take(i as int)),
            decreases self.usuarios@.len() - i,
        {
            proof {
                assert(self.usuarios@.take(i + 1).drop_last() =~= self.usuarios@.take(i as int));
                assert(self.usuarios@.take(i + 1).last() == self.usuarios@[i as int]);
            }
            v.push(self.usuarios[i].metodo_pago.clone());
            i = i + 1;
        }
        proof {
            assert(self.usuarios@.take(self.usuarios@.len() as int) =~= self.usuarios@);
        }
        v
    }

    /// Métodos de pago de los usuarios con suscripción activa, en el orden
    /// de las suscripciones.
    fn metodos_de_suscriptores_activos(&self) -> (v: Vec<MetodoPago>)
        ensures
            v@ == metodos_de_activos(self.suscripciones@, self.usuarios@),
    {
        let mut v: Vec<MetodoPago> = Vec::new();
        let mut i: usize = 0;
        while i < self.suscripciones.len()
            invariant
                i <= self.suscripciones@.len(),
                v@ == metodos_de_activos(self.suscripciones@.take(i as int), self.usuarios@),
            decreases self.suscripciones@.len() - i,
        {
            proof {
                assert(self.suscripciones@.take(i + 1).drop_last() =~= self.suscripciones@.take(
                    i as int,
                ));
                assert(self.suscripciones@.take(i + 1).last() == self.suscripciones@[i as int]);
            }
            let s = self.suscripciones[i];
            if s.esta_activa() {
                match self.get_usuario(s.id_usuario) {
                    Some(u) => {
                        v.push(u.metodo_pago.clone());
                    },
                    None => {},
                }
            }
            i = i + 1;
        }
        proof {
            assert(self.suscripciones@.take(self.suscripciones@.len() as int)
                =~= self.suscripciones@);
        }
        v
    }

    /// Tipos de todas las suscripciones, copiados en orden.
    fn tipos_de_todas(&self) -> (v: Vec<TipoSuscripcion>)
        ensures
            v@ == tipos_de_suscripciones(self.suscripciones@),
    {
        let mut v: Vec<TipoSuscripcion> = Vec::new();
        let mut i: usize = 0;
        while i < self.suscripciones.len()
            invariant
                i <= self.suscripciones@.len(),
                v@ == tipos_de_suscripciones(self.suscripciones@.take(i as int)),
            decreases self.suscripciones@.len() - i,
        {
            proof {
                assert(self.suscripciones@.take(i + 1).drop_last() =~= self.suscripciones@.take(
                    i as int,
                ));
                assert(self.suscripciones@.take(i + 1).last() == self.suscripciones@[i as int]);
            }
            v.push(self.suscripciones[i].tipo_suscripcion);
            i = i + 1;
        }
        proof {
            assert(self.suscripciones@.take(self.suscripciones@.len() as int)
                =~= self.suscripciones@);
        }
        v
    }

    /// Tipos de las suscripciones activas, copiados en orden.
    fn tipos_de_las_activas(&self) -> (v: Vec<TipoSuscripcion>)
        ensures
            v@ == tipos_de_activas(self.suscripciones@),
    {
        let mut v: Vec<TipoSuscripcion> = Vec::new();
        let mut i: usize = 0;
        while i < self.suscripciones.len()
            invariant
                i <= self.suscripciones@.len(),
                v@ == tipos_de_activas(self.suscripciones@.take(i as int)),
            decreases self.suscripciones@.len() - i,
        {
            proof {
                assert(self.suscripciones@.take(i + 1).drop_last() =~= self.suscripciones@.take(
                    i as int,
                ));
                assert(self.suscripciones@.take(i + 1).last() == self.suscripciones@[i as int]);
            }
            let s = self.suscripciones[i];
            if s.esta_activa() {
                v.push(s.tipo_suscripcion);
            }
            i = i + 1;
        }
        proof {
            assert(self.suscripciones@.take(self.suscripciones@.len() as int)
                =~= self.suscripciones@);
        }
        v
    }

    /// Entre los usuarios con suscripción activa, un método de pago que
    /// aparezca tantas veces como cualquier otro; nada si no hay ninguno.
    pub fn metodo_pago_activo_mas_usado(&self) -> (r: Option<MetodoPago>)
        ensures
            r is Some <==> metodos_de_activos(self.suscripciones@, self.usuarios@).len() > 0,
            r matches Some(m) ==> veces_metodo(
                metodos_de_activos(self.suscripciones@, self.usuarios@),
                m,
            ) >= 1 && forall|otro: MetodoPago|
                veces_metodo(metodos_de_activos(self.suscripciones@, self.usuarios@), otro)
                    <= veces_metodo(metodos_de_activos(self.suscripciones@, self.usuarios@), m),
    {
        let v = self.metodos_de_suscriptores_activos();
        metodo_mas_frecuente(&v)
    }

    /// Entre las suscripciones activas, un tipo que aparezca tantas veces
    /// como cualquier otro; nada si no hay ninguna activa.
    pub fn tipo_suscripcion_activa_mas_usada(&self) -> (r: Option<TipoSuscripcion>)
        ensures
            r is Some <==> tipos_de_activas(self.suscripciones@).len() > 0,
            r matches Some(t) ==> veces_tipo(tipos_de_activas(self.suscripciones@), t) >= 1
                && forall|otro: TipoSuscripcion|
                veces_tipo(tipos_de_activas(self.suscripciones@), otro) <= veces_tipo(
                    tipos_de_activas(self.suscripciones@),
                    t,
                ),
    {
        let v = self.tipos_de_las_activas();
        tipo_mas_frecuente(&v)
    }

    /// Entre todos los usuarios, un método de pago que aparezca tantas veces
    /// como cualquier otro; nada si no hay usuarios.
    pub fn metodo_pago_mas_usado(&self) -> (r: Option<MetodoPago>)
        ensures
            r is Some <==> self.usuarios@.len() > 0,
            r matches Some(m) ==> veces_metodo(metodos_de_usuarios(self.usuarios@), m) >= 1
                && forall|otro: MetodoPago|
                veces_metodo(metodos_de_usuarios(self.usuarios@), otro) <= veces_metodo(
                    metodos_de_usuarios(self.usuarios@),
                    m,
                ),
    {
        proof {
            lema_metodos_de_usuarios_largo(self.usuarios@);
        }
        let v = self.metodos_de_todos();
        metodo_mas_frecuente(&v)
    }

    /// Entre todas las suscripciones, un tipo que aparezca tantas veces como
    /// cualquier otro; nada si no hay suscripciones.
    pub fn tipo_suscripcion_mas_usado(&self) -> (r: Option<TipoSuscripcion>)
        ensures
            r is Some <==> self.suscripciones@.len() > 0,
            r matches Some(t) ==> veces_tipo(tipos_de_suscripciones(self.suscripciones@), t) >= 1
                && forall|otro: TipoSuscripcion|
                veces_tipo(tipos_de_suscripciones(self.suscripciones@), otro) <= veces_tipo(
                    tipos_de_suscripciones(self.suscripciones@),
                    t,
                ),
    {
        proof {
            lema_tipos_de_suscripciones_largo(self.suscripciones@);
        }
        let v = self.tipos_de_todas();
        tipo_mas_frecuente(&v)
    }
}

} // verus!
