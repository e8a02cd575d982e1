use dolarhoy_core::dolar::{
    get_cotizacion_from_alias, get_cotizacion_from_resource_name, Cotizacion, Moneda,
};

#[test]
fn test_moneda_cotizacion() {
    assert_eq!(Cotizacion::Blue.moneda(), Moneda::ARS);
    assert_eq!(Cotizacion::Oficial.moneda(), Moneda::ARS);
    assert_eq!(Cotizacion::Bolsa.moneda(), Moneda::ARS);
    assert_eq!(Cotizacion::ContadoConLiqui.moneda(), Moneda::ARS);
    assert_eq!(Cotizacion::Crypto.moneda(), Moneda::USD);
    assert_eq!(Cotizacion::Solidario.moneda(), Moneda::ARS);
    assert_eq!(Cotizacion::Tarjeta.moneda(), Moneda::ARS);
}

#[test]
fn test_cotizacion_from_name() {
    assert_eq!(get_cotizacion_from_resource_name(""), None);
    assert_eq!(
        get_cotizacion_from_resource_name("dolar-blue"),
        Some(Cotizacion::Blue)
    );
    assert_eq!(
        get_cotizacion_from_resource_name("dolar-bancos-y-casas-de-cambio"),
        Some(Cotizacion::Oficial)
    );
    assert_eq!(
        get_cotizacion_from_resource_name("dolar-mep"),
        Some(Cotizacion::Bolsa)
    );
    assert_eq!(
        get_cotizacion_from_resource_name("dolar-contado-con-liquidacion"),
        Some(Cotizacion::ContadoConLiqui)
    );
    assert_eq!(
        get_cotizacion_from_resource_name("bitcoin-usd"),
        Some(Cotizacion::Crypto)
    );
    assert_eq!(
        get_cotizacion_from_resource_name("banco-nacion"),
        Some(Cotizacion::Solidario)
    );
    assert_eq!(
        get_cotizacion_from_resource_name("dolar-tarjeta"),
        Some(Cotizacion::Tarjeta)
    );
}

#[test]
fn test_get_cotizacion_endpoint() {
    assert_eq!(Cotizacion::Blue.endpoint(), "/i/cotizaciones/dolar-blue");
    assert_eq!(
        Cotizacion::Oficial.endpoint(),
        "/i/cotizaciones/dolar-bancos-y-casas-de-cambio"
    );
    assert_eq!(Cotizacion::Bolsa.endpoint(), "/i/cotizaciones/dolar-mep");
    assert_eq!(
        Cotizacion::ContadoConLiqui.endpoint(),
        "/i/cotizaciones/dolar-contado-con-liquidacion"
    );
    assert_eq!(Cotizacion::Crypto.endpoint(), "/i/cotizaciones/bitcoin-usd");
    assert_eq!(
        Cotizacion::Solidario.endpoint(),
        "/i/cotizaciones/banco-nacion"
    );
    assert_eq!(
        Cotizacion::Tarjeta.endpoint(),
        "/i/cotizaciones/dolar-tarjeta"
    );
}

#[test]
fn test_get_cotizacion_from_alias_blue() {
    assert_eq!(
        get_cotizacion_from_alias("dolar-blue"),
        Some(Cotizacion::Blue)
    );
    assert_eq!(get_cotizacion_from_alias("blue"), Some(Cotizacion::Blue));
}

#[test]
fn test_get_cotizacion_from_alias_oficial() {
    assert_eq!(
        get_cotizacion_from_alias("dolar-bancos-y-casas-de-cambio"),
        Some(Cotizacion::Oficial)
    );
    assert_eq!(
        get_cotizacion_from_alias("oficial"),
        Some(Cotizacion::Oficial)
    );
}

#[test]
fn test_get_cotizacion_from_alias_bolsa() {
    assert_eq!(
        get_cotizacion_from_alias("dolar-mep"),
        Some(Cotizacion::Bolsa)
    );
    assert_eq!(get_cotizacion_from_alias("bolsa"), Some(Cotizacion::Bolsa));
    assert_eq!(get_cotizacion_from_alias("mep"), Some(Cotizacion::Bolsa));
}

#[test]
fn test_get_cotizacion_from_alias_ccl() {
    assert_eq!(
        get_cotizacion_from_alias("dolar-contado-con-liquidacion"),
        Some(Cotizacion::ContadoConLiqui)
    );
    assert_eq!(
        get_cotizacion_from_alias("ccl"),
        Some(Cotizacion::ContadoConLiqui)
    );
    assert_eq!(
        get_cotizacion_from_alias("contado"),
        Some(Cotizacion::ContadoConLiqui)
    );
}

#[test]
fn test_get_cotizacion_from_alias_crypto() {
    assert_eq!(
        get_cotizacion_from_alias("bitcoin-usd"),
        Some(Cotizacion::Crypto)
    );
    assert_eq!(
        get_cotizacion_from_alias("crypto"),
        Some(Cotizacion::Crypto)
    );
    assert_eq!(
        get_cotizacion_from_alias("cripto"),
        Some(Cotizacion::Crypto)
    );
    assert_eq!(
        get_cotizacion_from_alias("bitcoin"),
        Some(Cotizacion::Crypto)
    );
}

#[test]
fn test_get_cotizacion_from_alias_solidario() {
    assert_eq!(
        get_cotizacion_from_alias("banco-nacion"),
        Some(Cotizacion::Solidario)
    );
    assert_eq!(
        get_cotizacion_from_alias("solidario"),
        Some(Cotizacion::Solidario)
    );
    assert_eq!(
        get_cotizacion_from_alias("bna"),
        Some(Cotizacion::Solidario)
    );
}

#[test]
fn test_get_cotizacion_from_alias_tarjeta() {
    assert_eq!(
        get_cotizacion_from_alias("dolar-tarjeta"),
        Some(Cotizacion::Tarjeta)
    );
    assert_eq!(
        get_cotizacion_from_alias("tarjeta"),
        Some(Cotizacion::Tarjeta)
    );
}

#[test]
fn test_get_cotizacion_from_alias_empty() {
    assert_eq!(get_cotizacion_from_alias(""), None);
}

#[test]
fn test_moneda_nombre() {
    assert_eq!(Moneda::ARS.nombre(), "Peso Argentino");
    assert_eq!(Moneda::USD.nombre(), "Dolar Estadounidense");
}

#[test]
fn test_cotizacion_nombre() {
    assert_eq!(Cotizacion::Blue.nombre(), "Blue");
    assert_eq!(Cotizacion::Oficial.nombre(), "Oficial");
    assert_eq!(Cotizacion::Bolsa.nombre(), "Bolsa");
    assert_eq!(Cotizacion::ContadoConLiqui.nombre(), "Contado Con Liqui");
    assert_eq!(Cotizacion::Crypto.nombre(), "Crypto");
    assert_eq!(Cotizacion::Solidario.nombre(), "Solidario");
    assert_eq!(Cotizacion::Tarjeta.nombre(), "Tarjeta");
}

#[test]
fn test_recurso_round_trip() {
    for kind in [
        Cotizacion::Blue,
        Cotizacion::Oficial,
        Cotizacion::Bolsa,
        Cotizacion::ContadoConLiqui,
        Cotizacion::Crypto,
        Cotizacion::Solidario,
        Cotizacion::Tarjeta,
    ] {
        assert_eq!(get_cotizacion_from_resource_name(kind.recurso()), Some(kind));
        assert_eq!(get_cotizacion_from_alias(kind.recurso()), Some(kind));
    }
}
