use dolarhoy_core::client::{DolayHoyClient, PrecioDolar};
use dolarhoy_core::dolar::Cotizacion;
use dolarhoy_core::error::ClientError;
use dolarhoy_core::parser::PrecioCompraVenta;

fn respuesta(estado: &str, cuerpo: &str) -> String {
    format!("HTTP/1.1 {}\r\nServer: x\r\n\r\n{}", estado, cuerpo)
}

const CUERPO_BLUE: &str = r#"
    <div class="container__data">
        <h2 class="data__titulo">Dólar Blue</h2>
        <div class="data__valores">
            <p>566.00<span>Compra</span></p>
            <p>571.00<span>Venta</span></p>
        </div>
    </div>
"#;

const CUERPO_CRYPTO: &str = r#"
    <div class="container__data">
        <h2 class="data__titulo">Dólar Crypto</h2>
        <div class="data__valores">
            <p>29169.00<span>Valor</span></p>
        </div>
    </div>
"#;

#[test]
fn test_procesar_respuesta_compra_venta() {
    let cliente = DolayHoyClient::new();
    let res = respuesta("200", CUERPO_BLUE);
    let precio = cliente
        .procesar_respuesta::<f64>(Cotizacion::Blue, &res, "f64")
        .unwrap();
    assert_eq!(precio.title(), "Dólar Blue");
    assert_eq!(precio.precio_compra_venta(), (566.00f64, Some(571.00f64)));
    assert!(matches!(precio, PrecioDolar::CompraVenta(_)));
}

#[test]
fn test_procesar_respuesta_valor() {
    let cliente = DolayHoyClient::new();
    let res = respuesta("200", CUERPO_CRYPTO);
    let precio = cliente
        .procesar_respuesta::<f32>(Cotizacion::Crypto, &res, "f32")
        .unwrap();
    assert_eq!(precio.title(), "Dólar Crypto");
    assert_eq!(precio.precio_compra_venta(), (29169.00f32, None));
    assert!(matches!(precio, PrecioDolar::Valor(_)));
}

#[test]
fn test_procesar_respuesta_sin_separador() {
    let cliente = DolayHoyClient::new();
    let res = "HTTP/1.1 200\r\nServer: x\n\n<div></div>";
    let error = cliente
        .procesar_respuesta::<f64>(Cotizacion::Blue, res, "f64")
        .unwrap_err();
    match error {
        ClientError::InvalidResponseError(motivo) => assert_eq!(motivo, "invalid content"),
        otro => panic!("unexpected error: {:?}", otro),
    }
    assert_eq!(error_nuevo().message(), "invalid response");
}

fn error_nuevo() -> ClientError {
    ClientError::InvalidResponseError(String::from("invalid content"))
}

#[test]
fn test_procesar_respuesta_linea_invalida() {
    let cliente = DolayHoyClient::new();
    let res = format!("{}\r\n\r\n{}", "BOGUS LINE", CUERPO_BLUE);
    let error = cliente
        .procesar_respuesta::<f64>(Cotizacion::Blue, &res, "f64")
        .unwrap_err();
    match error {
        ClientError::InvalidResponseError(motivo) => assert_eq!(motivo, "invalid status line"),
        otro => panic!("unexpected error: {:?}", otro),
    }
}

#[test]
fn test_procesar_respuesta_estado_inesperado() {
    let cliente = DolayHoyClient::new();
    let res = respuesta("404", CUERPO_BLUE);
    let error = cliente
        .procesar_respuesta::<f64>(Cotizacion::Blue, &res, "f64")
        .unwrap_err();
    match error {
        ClientError::ResponseStatusError(estado) => assert_eq!(estado, 404),
        otro => panic!("unexpected error: {:?}", otro),
    }
    assert_eq!(
        ClientError::ResponseStatusError(404).message(),
        "unexpected status code"
    );
}

#[test]
fn test_procesar_respuesta_cuerpo_invalido() {
    let cliente = DolayHoyClient::new();
    let res = respuesta("200", "<div class=\"container__data\"></div>");
    let error = cliente
        .procesar_respuesta::<f64>(Cotizacion::Blue, &res, "f64")
        .unwrap_err();
    match &error {
        ClientError::ParseError(e) => assert_eq!(
            e.message(),
            "content cannot be parsed as float: element not found"
        ),
        otro => panic!("unexpected error: {:?}", otro),
    }
    assert_eq!(error.message(), "failed to parse data");
}

#[test]
fn test_procesar_respuesta_tipo_entero() {
    let cliente = DolayHoyClient::new();
    let cuerpo = r#"
        <div class="container__data">
            <h2 class="data__titulo">Dólar Blue</h2>
            <div class="data__valores">
                <p>566<span>Compra</span></p>
                <p>571<span>Venta</span></p>
            </div>
        </div>
    "#;
    let res = respuesta("200", cuerpo);
    let precio = cliente
        .procesar_respuesta::<u32>(Cotizacion::Blue, &res, "u32")
        .unwrap();
    assert_eq!(precio.precio_compra_venta(), (566u32, Some(571u32)));

    let res_punto = respuesta("200", CUERPO_BLUE);
    let error = cliente
        .procesar_respuesta::<u32>(Cotizacion::Blue, &res_punto, "u32")
        .unwrap_err();
    match &error {
        ClientError::ParseError(e) => assert_eq!(
            e.message(),
            "566.00 cannot be parsed as u32: conversion error"
        ),
        otro => panic!("unexpected error: {:?}", otro),
    }
}
