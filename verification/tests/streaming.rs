use practicas::fecha::Fecha;
use practicas::streaming::{
    EstadoSuscripcion, MetodoPago, Pack, StreamingRust, TipoPack, TipoSuscripcion,
};

fn fecha_de_alta() -> Fecha {
    Fecha::new(1, 1, 2024)
}

#[test]
fn test_crear_subscripcion() {
    let mut streaming = StreamingRust::new();
    streaming.crear_subscripcion(
        1,
        "Juan".to_string(),
        TipoSuscripcion::Basic,
        3,
        MetodoPago::Efectivo,
        fecha_de_alta(),
    );
    let usuario = streaming.get_usuario(1).unwrap();
    assert_eq!(usuario.nombre, "Juan");
    assert_eq!(usuario.metodo_pago, MetodoPago::Efectivo);
    let subscripcion = streaming.suscripciones.first().unwrap();
    assert_eq!(subscripcion.tipo_suscripcion, TipoSuscripcion::Basic);
    assert_eq!(subscripcion.duracion_meses, 3);
    assert_eq!(subscripcion.id_usuario, 1);
}

#[test]
fn test_upgrade_subscripcion() {
    let mut streaming = StreamingRust::new();
    streaming.crear_subscripcion(
        1,
        "Juan".to_string(),
        TipoSuscripcion::Basic,
        3,
        MetodoPago::Efectivo,
        fecha_de_alta(),
    );
    streaming.upgrade_subscripcion(1);
    let subscripcion = streaming.suscripciones.first().unwrap();
    assert_eq!(subscripcion.tipo_suscripcion, TipoSuscripcion::Clasic);
}

#[test]
fn test_upgrade_subscripcion_super() {
    let mut streaming = StreamingRust::new();
    streaming.crear_subscripcion(
        1,
        "Juan".to_string(),
        TipoSuscripcion::Super,
        3,
        MetodoPago::Efectivo,
        fecha_de_alta(),
    );
    streaming.upgrade_subscripcion(1);
    let subscripcion = streaming.suscripciones.first().unwrap();
    assert_eq!(subscripcion.tipo_suscripcion, TipoSuscripcion::Super);
}

#[test]
fn test_downgrade_subscripcion() {
    let mut streaming = StreamingRust::new();
    streaming.crear_subscripcion(
        1,
        "Juan".to_string(),
        TipoSuscripcion::Super,
        3,
        MetodoPago::Efectivo,
        fecha_de_alta(),
    );
    streaming.downgrade_subscripcion(1);
    let subscripcion = streaming.suscripciones.first().unwrap();
    assert_eq!(subscripcion.tipo_suscripcion, TipoSuscripcion::Clasic);
}

#[test]
fn test_downgrade_subscripcion_cancel() {
    let mut streaming = StreamingRust::new();
    streaming.crear_subscripcion(
        1,
        "Juan".to_string(),
        TipoSuscripcion::Basic,
        3,
        MetodoPago::Efectivo,
        fecha_de_alta(),
    );
    streaming.downgrade_subscripcion(1);
    let subscripcion = streaming.suscripciones.first().unwrap();
    assert_eq!(subscripcion.estado, EstadoSuscripcion::Inactiva);
}

#[test]
fn test_cancel_subscripcion() {
    let mut streaming = StreamingRust::new();
    streaming.crear_subscripcion(
        1,
        "Juan".to_string(),
        TipoSuscripcion::Super,
        3,
        MetodoPago::Efectivo,
        fecha_de_alta(),
    );
    streaming.cancel_subscripcion(1);
    let subscripcion = streaming.suscripciones.first().unwrap();
    assert_eq!(subscripcion.estado, EstadoSuscripcion::Inactiva);
}

#[test]
fn test_most_used_active_metodo_pago() {
    let mut streaming = StreamingRust::new();
    streaming.crear_subscripcion(
        1,
        "Juan".to_string(),
        TipoSuscripcion::Super,
        3,
        MetodoPago::Efectivo,
        fecha_de_alta(),
    );
    streaming.crear_subscripcion(
        2,
        "Pedro".to_string(),
        TipoSuscripcion::Super,
        3,
        MetodoPago::Efectivo,
        fecha_de_alta(),
    );
    streaming.crear_subscripcion(
        3,
        "Pablo".to_string(),
        TipoSuscripcion::Super,
        3,
        MetodoPago::MercadoPago { id_cuenta: "123".to_string() },
        fecha_de_alta(),
    );
    streaming.crear_subscripcion(
        4,
        "Jose".to_string(),
        TipoSuscripcion::Super,
        3,
        MetodoPago::MercadoPago { id_cuenta: "123".to_string() },
        fecha_de_alta(),
    );
    streaming.crear_subscripcion(
        5,
        "Pepe".to_string(),
        TipoSuscripcion::Super,
        3,
        MetodoPago::MercadoPago { id_cuenta: "123".to_string() },
        fecha_de_alta(),
    );
    streaming.cancel_subscripcion(4);
    streaming.cancel_subscripcion(5);
    let metodo_pago = streaming.metodo_pago_activo_mas_usado().unwrap();
    assert_eq!(metodo_pago, MetodoPago::Efectivo);
}

#[test]
fn test_most_popular_active_subscripcion() {
    let mut streaming = StreamingRust::new();
    streaming.crear_subscripcion(
        1,
        "Juan".to_string(),
        TipoSuscripcion::Super,
        3,
        MetodoPago::Efectivo,
        fecha_de_alta(),
    );
    streaming.crear_subscripcion(
        2,
        "Pedro".to_string(),
        TipoSuscripcion::Super,
        3,
        MetodoPago::Efectivo,
        fecha_de_alta(),
    );
    streaming.crear_subscripcion(
        3,
        "Pablo".to_string(),
        TipoSuscripcion::Basic,
        3,
        MetodoPago::Efectivo,
        fecha_de_alta(),
    );
    streaming.crear_subscripcion(
        4,
        "Jose".to_string(),
        TipoSuscripcion::Basic,
        3,
        MetodoPago::Efectivo,
        fecha_de_alta(),
    );
    streaming.crear_subscripcion(
        5,
        "Pepe".to_string(),
        TipoSuscripcion::Basic,
        3,
        MetodoPago::Efectivo,
        fecha_de_alta(),
    );
    streaming.cancel_subscripcion(4);
    streaming.cancel_subscripcion(5);
    let tipo_suscripcion = streaming.tipo_suscripcion_activa_mas_usada().unwrap();
    assert_eq!(tipo_suscripcion, TipoSuscripcion::Super);
}

#[test]
fn test_most_used_metodo_pago() {
    let mut streaming = StreamingRust::new();
    streaming.crear_subscripcion(
        1,
        "Juan".to_string(),
        TipoSuscripcion::Super,
        3,
        MetodoPago::Efectivo,
        fecha_de_alta(),
    );
    streaming.crear_subscripcion(
        2,
        "Pedro".to_string(),
        TipoSuscripcion::Super,
        3,
        MetodoPago::Efectivo,
        fecha_de_alta(),
    );
    streaming.crear_subscripcion(
        3,
        "Pablo".to_string(),
        TipoSuscripcion::Super,
        3,
        MetodoPago::Efectivo,
        fecha_de_alta(),
    );
    streaming.crear_subscripcion(
        4,
        "Jose".to_string(),
        TipoSuscripcion::Super,
        3,
        MetodoPago::MercadoPago { id_cuenta: "123".to_string() },
        fecha_de_alta(),
    );
    streaming.crear_subscripcion(
        5,
        "Pepe".to_string(),
        TipoSuscripcion::Super,
        3,
        MetodoPago::MercadoPago { id_cuenta: "123".to_string() },
        fecha_de_alta(),
    );
    streaming.cancel_subscripcion(1);
    streaming.cancel_subscripcion(2);
    let metodo_pago = streaming.metodo_pago_mas_usado().unwrap();
    assert_eq!(metodo_pago, MetodoPago::Efectivo);
}

#[test]
fn test_most_popular_subscripcion() {
    let mut streaming = StreamingRust::new();
    streaming.crear_subscripcion(
        1,
        "Juan".to_string(),
        TipoSuscripcion::Super,
        3,
        MetodoPago::Efectivo,
        fecha_de_alta(),
    );
    streaming.crear_subscripcion(
        2,
        "Pedro".to_string(),
        TipoSuscripcion::Super,
        3,
        MetodoPago::Efectivo,
        fecha_de_alta(),
    );
    streaming.crear_subscripcion(
        3,
        "Pablo".to_string(),
        TipoSuscripcion::Basic,
        3,
        MetodoPago::Efectivo,
        fecha_de_alta(),
    );
    streaming.crear_subscripcion(
        4,
        "Jose".to_string(),
        TipoSuscripcion::Basic,
        3,
        MetodoPago::Efectivo,
        fecha_de_alta(),
    );
    streaming.crear_subscripcion(
        5,
        "Pepe".to_string(),
        TipoSuscripcion::Basic,
        3,
        MetodoPago::Efectivo,
        fecha_de_alta(),
    );
    streaming.cancel_subscripcion(4);
    streaming.cancel_subscripcion(5);
    let tipo_suscripcion = streaming.tipo_suscripcion_mas_usado().unwrap();
    assert_eq!(tipo_suscripcion, TipoSuscripcion::Basic);
}

#[test]
fn test_get_pack_found() {
    let mut streaming = StreamingRust::new();
    streaming.packs.push(Pack::new(TipoPack::Futbol, 1, MetodoPago::Efectivo));
    streaming.packs.push(Pack::new(
        TipoPack::Familiar([2, 3, 4, 5, 6]),
        1,
        MetodoPago::Efectivo,
    ));
    let pack = streaming.get_pack(1, &TipoPack::Futbol).unwrap();
    assert_eq!(pack.tipo_pack, TipoPack::Futbol);
    assert_eq!(pack.id_usuario, 1);
    assert_eq!(pack.metodo_pago, MetodoPago::Efectivo);

    // Busca el pack familiar sin importar los usuarios asociados.
    let pack = streaming.get_pack(1, &TipoPack::Familiar([0, 0, 0, 0, 0])).unwrap();
    assert_eq!(pack.tipo_pack, TipoPack::Familiar([0, 0, 0, 0, 0]));
    assert_eq!(pack.id_usuario, 1);
    assert_eq!(pack.metodo_pago, MetodoPago::Efectivo);
}

#[test]
fn test_get_pack_not_found() {
    let mut streaming = StreamingRust::new();
    streaming.packs.push(Pack::new(TipoPack::Futbol, 1, MetodoPago::Efectivo));
    let pack = streaming.get_pack(1, &TipoPack::Familiar([2, 3, 4, 5, 6]));
    assert!(pack.is_none());
}

#[test]
fn test_contratar_pack() {
    let mut streaming = StreamingRust::new();
    streaming.crear_subscripcion(
        1,
        "Juan".to_string(),
        TipoSuscripcion::Super,
        3,
        MetodoPago::Efectivo,
        fecha_de_alta(),
    );
    streaming.contratar_pack(1, MetodoPago::Efectivo, TipoPack::Futbol);
    let pack = streaming.get_pack(1, &TipoPack::Futbol).unwrap();
    assert_eq!(pack.tipo_pack, TipoPack::Futbol);
    assert_eq!(pack.id_usuario, 1);
    assert_eq!(pack.metodo_pago, MetodoPago::Efectivo);
}

#[test]
fn test_contratar_pack_suscripcion_inactiva() {
    let mut streaming = StreamingRust::new();
    streaming.crear_subscripcion(
        1,
        "Juan".to_string(),
        TipoSuscripcion::Super,
        3,
        MetodoPago::Efectivo,
        fecha_de_alta(),
    );
    streaming.cancel_subscripcion(1);
    streaming.contratar_pack(1, MetodoPago::Efectivo, TipoPack::Futbol);
    let pack = streaming.get_pack(1, &TipoPack::Futbol);
    assert!(pack.is_none());
}

#[test]
fn test_contratar_pack_sin_suscripcion() {
    let mut streaming = StreamingRust::new();
    streaming.contratar_pack(1, MetodoPago::Efectivo, TipoPack::Futbol);
    let pack = streaming.get_pack(1, &TipoPack::Futbol);
    assert!(pack.is_none());
}

#[test]
fn test_crear_subscripcion_no_duplica() {
    let mut streaming = StreamingRust::new();
    streaming.crear_subscripcion(
        1,
        "Juan".to_string(),
        TipoSuscripcion::Basic,
        3,
        MetodoPago::Efectivo,
        fecha_de_alta(),
    );
    streaming.crear_subscripcion(
        1,
        "Juan".to_string(),
        TipoSuscripcion::Super,
        12,
        MetodoPago::Efectivo,
        fecha_de_alta(),
    );
    assert_eq!(streaming.usuarios.len(), 1);
    assert_eq!(streaming.suscripciones.len(), 1);
    assert_eq!(
        streaming.suscripciones.first().unwrap().tipo_suscripcion,
        TipoSuscripcion::Basic
    );
}

#[test]
fn test_upgrade_sin_suscripcion_no_cambia_nada() {
    let mut streaming = StreamingRust::new();
    streaming.upgrade_subscripcion(7);
    streaming.downgrade_subscripcion(7);
    streaming.cancel_subscripcion(7);
    assert!(streaming.suscripciones.is_empty());
    assert!(streaming.get_usuario(7).is_none());
}

#[test]
fn test_estadisticas_sin_datos() {
    let streaming = StreamingRust::new();
    assert!(streaming.metodo_pago_mas_usado().is_none());
    assert!(streaming.metodo_pago_activo_mas_usado().is_none());
    assert!(streaming.tipo_suscripcion_mas_usado().is_none());
    assert!(streaming.tipo_suscripcion_activa_mas_usada().is_none());
}

#[test]
fn test_contratar_pack_repetido_no_duplica() {
    let mut streaming = StreamingRust::new();
    streaming.crear_subscripcion(
        1,
        "Juan".to_string(),
        TipoSuscripcion::Super,
        3,
        MetodoPago::Efectivo,
        fecha_de_alta(),
    );
    streaming.contratar_pack(1, MetodoPago::Efectivo, TipoPack::Futbol);
    streaming.contratar_pack(1, MetodoPago::Efectivo, TipoPack::Futbol);
    assert_eq!(streaming.packs.len(), 1);
}

#[test]
fn test_metodos_distintos_por_contenido() {
    let mut streaming = StreamingRust::new();
    streaming.crear_subscripcion(
        1,
        "Juan".to_string(),
        TipoSuscripcion::Basic,
        3,
        MetodoPago::Cripto { billetera: "abc".to_string() },
        fecha_de_alta(),
    );
    streaming.crear_subscripcion(
        2,
        "Pedro".to_string(),
        TipoSuscripcion::Basic,
        3,
        MetodoPago::Cripto { billetera: "xyz".to_string() },
        fecha_de_alta(),
    );
    streaming.crear_subscripcion(
        3,
        "Pablo".to_string(),
        TipoSuscripcion::Basic,
        3,
        MetodoPago::Cripto { billetera: "xyz".to_string() },
        fecha_de_alta(),
    );
    let metodo = streaming.metodo_pago_mas_usado().unwrap();
    assert_eq!(metodo, MetodoPago::Cripto { billetera: "xyz".to_string() });
}
