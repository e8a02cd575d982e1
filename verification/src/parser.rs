use vstd::prelude::*;
use crate::texto::chars_de;

verus! {

/// Status code of a successful response.
pub const HTTP_RESPONSE_STATUS_OK: u32 = 200;

/// Status code of a missing page.
pub const HTTP_RESPONSE_STATUS_NOT_FOUND: u32 = 404;

/// What `char::is_alphabetic` returns: whether the character has the
/// Unicode "Alphabetic" property.
pub uninterp spec fn spec_alfabetico(c: char) -> bool;

/// What `char::is_numeric` returns: whether the character is in a
/// Unicode numeric category.
pub uninterp spec fn spec_numerico(c: char) -> bool;

/// Relies on char::is_alphabetic, which its documentation defines by
/// the Unicode "Alphabetic" property; ASCII letters have it.
#[verifier::external_body]
pub fn is_alpha(c: char) -> (r: bool)
    ensures
        r == spec_alfabetico(c),
        ('a' <= c && c <= 'z') || ('A' <= c && c <= 'Z') ==> r,
{
    c.is_alphabetic()
}

/// Relies on char::is_numeric, which its documentation defines by the
/// Unicode numeric categories Nd, Nl and No; ASCII digits are in Nd.
#[verifier::external_body]
pub fn is_numeric(c: char) -> (r: bool)
    ensures
        r == spec_numerico(c),
        '0' <= c && c <= '9' ==> r,
{
    c.is_numeric()
}

/// A character admissible in a decimal fraction: numeric or the point.
pub open spec fn spec_es_float(c: char) -> bool {
    spec_numerico(c) || c == '.'
}

/// Whether the character may appear in a price or version text.
pub fn is_float(c: char) -> (r: bool)
    ensures
        r == spec_es_float(c),
{
    is_numeric(c) || c == '.'
}

/// An ASCII decimal digit, by code point.
pub open spec fn spec_digito(c: char) -> bool {
    48 <= c as int && c as int <= 57
}

/// Numeric value of an ASCII decimal digit.
pub open spec fn spec_valor_digito(c: char) -> int {
    c as int - 48
}

/// Value of a digit string read as a decimal number, most significant
/// digit first.
pub open spec fn spec_valor_decimal(s: Seq<char>) -> int
    decreases s.len(),
{
    if s.len() == 0 {
        0
    } else {
        spec_valor_decimal(s.drop_last()) * 10 + spec_valor_digito(s.last())
    }
}

/// A string that `from_int` accepts: at least one character, every
/// character an ASCII digit, and the value within `u32`.
pub open spec fn spec_decimal_valido(s: Seq<char>) -> bool {
    &&& s.len() > 0
    &&& forall|i: int| 0 <= i < s.len() ==> spec_digito(#[trigger] s[i])
    &&& spec_valor_decimal(s) <= u32::MAX
}

proof fn lemma_valor_decimal_no_negativo(s: Seq<char>)
    requires
        forall|i: int| 0 <= i < s.len() ==> spec_digito(#[trigger] s[i]),
    ensures
        spec_valor_decimal(s) >= 0,
    decreases s.len(),
{
    if s.len() > 0 {
        lemma_valor_decimal_no_negativo(s.drop_last());
    }
}

proof fn lemma_valor_decimal_prefijo(s: Seq<char>, i: int)
    requires
        0 <= i <= s.len(),
        forall|j: int| 0 <= j < s.len() ==> spec_digito(#[trigger] s[j]),
    ensures
        spec_valor_decimal(s.subrange(0, i)) <= spec_valor_decimal(s),
    decreases s.len() - i,
{
    if i == s.len() {
        assert(s.subrange(0, i) =~= s);
    } else {
        lemma_valor_decimal_prefijo(s, i + 1);
        let p = s.subrange(0, i + 1);
        assert(p.drop_last() =~= s.subrange(0, i));
        lemma_valor_decimal_no_negativo(p.drop_last());
        assert(spec_valor_decimal(p) == spec_valor_decimal(s.subrange(0, i)) * 10
            + spec_valor_digito(p.last()));
    }
}

/// Reads an unsigned decimal integer: accepts exactly the nonempty
/// all-ASCII-digit strings whose value fits in a `u32`.
pub fn from_int(input: &str) -> (r: Option<u32>)
    ensures
        match r {
            Some(v) => spec_decimal_valido(input@) && v as int == spec_valor_decimal(input@),
            None => !spec_decimal_valido(input@),
        },
{
    let chars = chars_de(input);
    let n = chars.len();
    if n == 0 {
        return None;
    }
    let mut acc: u32 = 0;
    let mut i: usize = 0;
    while i < n
        invariant
            n == input@.len(),
            chars@ == input@,
            0 <= i <= n,
            forall|j: int| 0 <= j < i ==> spec_digito(#[trigger] input@[j]),
            acc as int == spec_valor_decimal(input@.subrange(0, i as int)),
        decreases n - i,
    {
        let c = chars[i];
        if !('0' <= c && c <= '9') {
            return None;
        }
        let d: u32 = (c as u32) - 48;
        if acc > (u32::MAX - d) / 10 {
            proof {
                let p = input@.subrange(0, i as int + 1);
                assert(p.drop_last() =~= input@.subrange(0, i as int));
                assert(p.last() == input@[i as int]);
                assert(spec_valor_decimal(p) == acc as int * 10 + d);
                if forall|j: int| 0 <= j < input@.len() ==> spec_digito(#[trigger] input@[j]) {
                    lemma_valor_decimal_prefijo(input@, i as int + 1);
                }
            }
            return None;
        }
        proof {
            let p = input@.subrange(0, i as int + 1);
            assert(p.drop_last() =~= input@.subrange(0, i as int));
            assert(p.last() == input@[i as int]);
        }
        acc = acc * 10 + d;
        i = i + 1;
    }
    proof {
        assert(input@.subrange(0, n as int) =~= input@);
    }
    Some(acc)
}

/// The three character classes the status-line grammar scans over.
#[derive(Clone, Copy)]
pub enum Clase {
    /// Unicode alphabetic characters.
    Alfabetica,
    /// Numeric characters and the decimal point.
    Flotante,
    /// Unicode numeric characters.
    Numerica,
}

/// Whether `c` belongs to the class `k`.
pub open spec fn spec_clase(k: Clase, c: char) -> bool {
    match k {
        Clase::Alfabetica => spec_alfabetico(c),
        Clase::Flotante => spec_es_float(c),
        Clase::Numerica => spec_numerico(c),
    }
}

/// End of the longest run of characters of class `k` beginning at `desde`.
pub open spec fn spec_fin_tramo(s: Seq<char>, desde: int, k: Clase) -> int
    decreases s.len() - desde,
    when 0 <= desde <= s.len()
{
    if desde >= s.len() || !spec_clase(k, s[desde]) {
        desde
    } else {
        spec_fin_tramo(s, desde + 1, k)
    }
}

proof fn lemma_fin_tramo_igual(s: Seq<char>, desde: int, fin: int, k: Clase)
    requires
        0 <= desde <= fin <= s.len(),
        forall|j: int| desde <= j < fin ==> spec_clase(k, #[trigger] s[j]),
        fin == s.len() || !spec_clase(k, s[fin as int]),
    ensures
        spec_fin_tramo(s, desde, k) == fin,
    decreases fin - desde,
{
    if desde < fin {
        lemma_fin_tramo_igual(s, desde + 1, fin, k);
    }
}

fn cumple_clase(k: Clase, c: char) -> (r: bool)
    ensures
        r == spec_clase(k, c),
{
    match k {
        Clase::Alfabetica => is_alpha(c),
        Clase::Flotante => is_float(c),
        Clase::Numerica => is_numeric(c),
    }
}

/// Scans forward from `desde` to the end of the run of characters of
/// class `k`.
fn fin_tramo(chars: &Vec<char>, desde: usize, k: Clase) -> (fin: usize)
    requires
        desde <= chars@.len(),
    ensures
        desde <= fin <= chars@.len(),
        fin as int == spec_fin_tramo(chars@, desde as int, k),
{
    let n = chars.len();
    let mut i = desde;
    while i < n
        invariant
            desde <= i <= n,
            n == chars@.len(),
            forall|j: int| desde <= j < i ==> spec_clase(k, #[trigger] chars@[j]),
        decreases n - i,
    {
        if !cumple_clase(k, chars[i]) {
            proof {
                lemma_fin_tramo_igual(chars@, desde as int, i as int, k);
            }
            return i;
        }
        i = i + 1;
    }
    proof {
        lemma_fin_tramo_igual(chars@, desde as int, i as int, k);
    }
    i
}

/// The leading status line of a response.
#[derive(Debug, PartialEq, Eq)]
pub struct HTTPResponse {
    /// Protocol token, the text before the slash.
    pub protocol: String,
    /// Version token, the text between the slash and the space.
    pub version: String,
    /// Decimal status code after the space.
    pub status: u32,
}

/// A response whose leading line does not match the status-line grammar.
#[derive(Debug, PartialEq, Eq, Structural, Clone, Copy)]
pub struct ParseFailure;

/// The status-line grammar: `protocol "/" version " " status`, where
/// `protocol` is the longest leading alphabetic run, `version` the
/// longest following run of numeric characters and points, and
/// `status` the longest following numeric run, read as a decimal
/// integer. Yields the unconsumed text and the three parts, or `None`
/// where a literal is missing or the status run is not a `u32`.
pub open spec fn spec_http_response(s: Seq<char>) -> Option<(Seq<char>, Seq<char>, Seq<char>, int)> {
    let p1 = spec_fin_tramo(s, 0, Clase::Alfabetica);
    if p1 < s.len() && s[p1] == '/' {
        let p2 = spec_fin_tramo(s, p1 + 1, Clase::Flotante);
        if p2 < s.len() && s[p2] == ' ' {
            let p3 = spec_fin_tramo(s, p2 + 1, Clase::Numerica);
            let estado = s.subrange(p2 + 1, p3);
            if spec_decimal_valido(estado) {
                Some(
                    (
                        s.subrange(p3, s.len() as int),
                        s.subrange(0, p1),
                        s.subrange(p1 + 1, p2),
                        spec_valor_decimal(estado),
                    ),
                )
            } else {
                None
            }
        } else {
            None
        }
    } else {
        None
    }
}

impl HTTPResponse {
    /// Whether the response status is 200.
    pub fn status_ok(&self) -> (r: bool)
        ensures
            r == (self.status == HTTP_RESPONSE_STATUS_OK),
    {
        self.status == HTTP_RESPONSE_STATUS_OK
    }

    /// Whether the response status is 404.
    pub fn status_not_found(&self) -> (r: bool)
        ensures
            r == (self.status == HTTP_RESPONSE_STATUS_NOT_FOUND),
    {
        self.status == HTTP_RESPONSE_STATUS_NOT_FOUND
    }
}

/// Parses the leading status line of a response, returning the
/// unconsumed text and the structured line exactly as the status-line
/// grammar prescribes.
pub fn http_response<'a>(input: &'a str) -> (r: Result<(&'a str, HTTPResponse), ParseFailure>)
    ensures
        match r {
            Ok(par) => spec_http_response(input@) == Some(
                (par.0@, par.1.protocol@, par.1.version@, par.1.status as int),
            ),
            Err(_) => spec_http_response(input@) is None,
        },
{
    let chars = chars_de(input);
    let n = chars.len();
    let p1 = fin_tramo(&chars, 0, Clase::Alfabetica);
    if p1 >= n || chars[p1] != '/' {
        return Err(ParseFailure);
    }
    let p2 = fin_tramo(&chars, p1 + 1, Clase::Flotante);
    if p2 >= n || chars[p2] != ' ' {
        return Err(ParseFailure);
    }
    let p3 = fin_tramo(&chars, p2 + 1, Clase::Numerica);
    let token = input.substring_char(p2 + 1, p3);
    match from_int(token) {
        None => Err(ParseFailure),
        Some(status) => {
            let protocol = input.substring_char(0, p1).to_owned();
            let version = input.substring_char(p1 + 1, p2).to_owned();
            let rest = input.substring_char(p3, n);
            Ok((rest, HTTPResponse { protocol, version, status }))
        },
    }
}


/// What the markup engine selects: the inner markup of each element of
/// `doc` matching the CSS selector `sel`, in document order, or `None`
/// for a selector the engine refuses.
pub uninterp spec fn spec_seleccion(doc: Seq<char>, sel: Seq<char>) -> Option<Seq<Seq<char>>>;

/// What the markup engine reads as an element's text: for each element
/// of `doc` matching `sel`, its text segments each trimmed and
/// concatenated, in document order, or `None` for a selector the
/// engine refuses.
pub uninterp spec fn spec_seleccion_texto(doc: Seq<char>, sel: Seq<char>) -> Option<Seq<Seq<char>>>;

/// Relies on scraper's Html::parse_document, Selector::parse,
/// Html::select and ElementRef::inner_html: the elements matching a
/// CSS selector, in document order, each handed out as its inner
/// markup; a function of the two arguments alone.
#[verifier::external_body]
fn seleccionar_interiores(doc: &str, selector: &str) -> (r: Option<Vec<String>>)
    ensures
        match r {
            Some(v) => spec_seleccion(doc@, selector@) == Some(v@.map_values(|s: String| s@)),
            None => spec_seleccion(doc@, selector@) is None,
        },
{
    let sel = match scraper::Selector::parse(selector) {
        Ok(sel) => sel,
        Err(_) => return None,
    };
    let html = scraper::Html::parse_document(doc);
    Some(html.select(&sel).map(|e| e.inner_html()).collect())
}

/// Relies on scraper's Html::parse_document, Selector::parse,
/// Html::select and ElementRef::text: the elements matching a CSS
/// selector, in document order, each handed out as its text segments
/// trimmed and concatenated; a function of the two arguments alone.
#[verifier::external_body]
fn seleccionar_textos(doc: &str, selector: &str) -> (r: Option<Vec<String>>)
    ensures
        match r {
            Some(v) => spec_seleccion_texto(doc@, selector@) == Some(v@.map_values(|s: String| s@)),
            None => spec_seleccion_texto(doc@, selector@) is None,
        },
{
    let sel = match scraper::Selector::parse(selector) {
        Ok(sel) => sel,
        Err(_) => return None,
    };
    let html = scraper::Html::parse_document(doc);
    Some(html.select(&sel).map(|e| e.text().map(|t| t.trim()).collect::<String>()).collect())
}

/// Relies on str::parse through `T`'s FromStr implementation; nothing
/// is assumed of the outcome.
#[verifier::external_body]
fn parse_precio<T: core::str::FromStr>(texto: &str) -> (r: Option<T>) {
    texto.parse::<T>().ok()
}

/// A price element's numeric text: the longest leading run of numeric
/// characters and points in its inner markup.
pub open spec fn spec_tramo_flotante(s: Seq<char>) -> Seq<char> {
    s.subrange(0, spec_fin_tramo(s, 0, Clase::Flotante))
}

/// First entry of a selection, where the selector was accepted and
/// matched at least one element.
pub open spec fn spec_primero(o: Option<Seq<Seq<char>>>) -> Option<Seq<char>> {
    match o {
        Some(v) => if v.len() > 0 {
            Some(v[0])
        } else {
            None
        },
        None => None,
    }
}

/// Title of a quote fragment: the trimmed text of the first heading
/// element in the quote-data container.
pub open spec fn spec_titulo(doc: Seq<char>) -> Option<Seq<char>> {
    spec_primero(spec_seleccion_texto(doc, ".container__data h2.data__titulo"@))
}

/// Numeric text of the first price element of a quote fragment.
pub open spec fn spec_precio1(doc: Seq<char>) -> Option<Seq<char>> {
    match spec_primero(spec_seleccion(doc, ".container__data p:nth-child(1)"@)) {
        Some(h) => Some(spec_tramo_flotante(h)),
        None => None,
    }
}

/// Numeric text of the second price element of a quote fragment.
pub open spec fn spec_precio2(doc: Seq<char>) -> Option<Seq<char>> {
    match spec_primero(spec_seleccion(doc, ".container__data p:nth-child(2)"@)) {
        Some(h) => Some(spec_tramo_flotante(h)),
        None => None,
    }
}

/// An extraction failure: the two ways a price fragment can be bad.
#[derive(Debug, PartialEq, Eq)]
pub enum ExtractionError {
    /// The expected title or price element is absent from the fragment.
    ElementNotFound,
    /// The numeric text of a price element does not parse as the
    /// target type.
    ConversionError {
        /// The offending numeric text.
        text: String,
        /// Name of the target type.
        tipo: String,
    },
}

impl ExtractionError {
    /// The error rendered as text, naming the offending text, the
    /// target type and the failure mode.
    pub fn message(&self) -> (r: String)
        ensures
            match self {
                ExtractionError::ElementNotFound => r@
                    == "content cannot be parsed as float: element not found"@,
                ExtractionError::ConversionError { text, tipo } => r@ == text@
                    + " cannot be parsed as "@ + tipo@ + ": conversion error"@,
            },
    {
        match self {
            ExtractionError::ElementNotFound => String::from_str(
                "content cannot be parsed as float: element not found",
            ),
            ExtractionError::ConversionError { text, tipo } => {
                let mut m = text.clone();
                m.append(" cannot be parsed as ");
                m.append(tipo.as_str());
                m.append(": conversion error");
                m
            },
        }
    }
}

/// A price read from a single markup element.
#[derive(Debug)]
pub struct PrecioCotizacion<T> {
    /// The decoded numeric value.
    pub precio: T,
}

impl<T: core::str::FromStr> PrecioCotizacion<T> {
    /// Reads a price from the first of the handed-out elements: the
    /// longest leading run of numeric characters and points in its
    /// inner markup, parsed as `T`. An empty hand-out is the missing-
    /// element failure; a run the parser refuses is the conversion
    /// failure, attributed to that run and to `tipo`, the caller's
    /// name for `T`.
    pub fn from_elements(elements: &Vec<String>, tipo: &str) -> (r: Result<Self, ExtractionError>)
        ensures
            match r {
                Ok(_) => elements@.len() > 0,
                Err(e) => match e {
                    ExtractionError::ElementNotFound => elements@.len() == 0,
                    ExtractionError::ConversionError { text, tipo: t } => elements@.len() > 0
                        && text@ == spec_tramo_flotante(elements@[0]@) && t@ == tipo@,
                },
            },
    {
        if elements.len() == 0 {
            return Err(ExtractionError::ElementNotFound);
        }
        let contenido: &String = &elements[0];
        let chars = chars_de(contenido.as_str());
        let fin = fin_tramo(&chars, 0, Clase::Flotante);
        let valor = contenido.as_str().substring_char(0, fin);
        match parse_precio::<T>(valor) {
            Some(precio) => Ok(PrecioCotizacion { precio }),
            None => Err(
                ExtractionError::ConversionError {
                    text: valor.to_owned(),
                    tipo: tipo.to_owned(),
                },
            ),
        }
    }
}


/// A buy price and, for shapes that list one, a sell price.
pub type CompraVenta<T> = (T, Option<T>);

/// The uniform capability of the two record shapes: hand out the
/// price pair and the title without naming the shape.
pub trait PrecioCompraVenta<T> {
    /// The pair the record carries.
    spec fn spec_precio_compra_venta(&self) -> CompraVenta<T>;

    /// The record's title.
    spec fn spec_title(&self) -> Seq<char>;

    /// The buy price and, where the shape has one, the sell price.
    fn precio_compra_venta(&self) -> (r: CompraVenta<T>)
        ensures
            r == self.spec_precio_compra_venta(),
    ;

    /// The record's title.
    fn title(&self) -> (r: String)
        ensures
            r@ == self.spec_title(),
    ;
}

/// A quote with a buy and a sell price, read from a fragment with a
/// title heading and two price elements.
#[derive(Debug)]
pub struct CotizacionCompraVenta<T> {
    /// Trimmed text of the title heading.
    pub title: String,
    /// Price of the first price element.
    pub precio_compra: PrecioCotizacion<T>,
    /// Price of the second price element.
    pub precio_venta: PrecioCotizacion<T>,
}

/// A quote with a single value, read from a fragment with a title
/// heading and one price element.
#[derive(Debug)]
pub struct CotizacionValor<T> {
    /// Trimmed text of the title heading.
    pub title: String,
    /// Price of the only price element.
    pub valor: PrecioCotizacion<T>,
}

impl<T: core::str::FromStr> CotizacionCompraVenta<T> {
    /// Reads a buy/sell quote from a markup fragment: the title from
    /// the heading of the quote-data container, the buy price from its
    /// first price element and the sell price from its second, each
    /// parsed as `T`; `tipo` is the caller's name for `T`, carried by
    /// conversion failures.
    pub fn from_html(content: &str, tipo: &str) -> (r: Result<Self, ExtractionError>)
        ensures
            match r {
                Ok(cv) => {
                    &&& spec_titulo(content@) == Some(cv.title@)
                    &&& spec_precio1(content@) is Some
                    &&& spec_precio2(content@) is Some
                },
                Err(e) => match e {
                    ExtractionError::ElementNotFound => spec_titulo(content@) is None
                        || spec_precio1(content@) is None || spec_precio2(content@) is None,
                    ExtractionError::ConversionError { text, tipo: t } => {
                        &&& spec_titulo(content@) is Some
                        &&& t@ == tipo@
                        &&& (Some(text@) == spec_precio1(content@) || Some(text@) == spec_precio2(
                            content@,
                        ))
                    },
                },
            },
    {
        let titulos = match seleccionar_textos(content, ".container__data h2.data__titulo") {
            None => return Err(ExtractionError::ElementNotFound),
            Some(v) => v,
        };
        if titulos.len() == 0 {
            return Err(ExtractionError::ElementNotFound);
        }
        let title = titulos[0].clone();
        proof {
            assert(titulos@.map_values(|s: String| s@)[0] == titulos@[0]@);
        }
        let compra = match seleccionar_interiores(content, ".container__data p:nth-child(1)") {
            None => return Err(ExtractionError::ElementNotFound),
            Some(v) => v,
        };
        proof {
            if compra@.len() > 0 {
                assert(compra@.map_values(|s: String| s@)[0] == compra@[0]@);
            }
        }
        let precio_compra = match PrecioCotizacion::<T>::from_elements(&compra, tipo) {
            Ok(p) => p,
            Err(e) => return Err(e),
        };
        let venta = match seleccionar_interiores(content, ".container__data p:nth-child(2)") {
            None => return Err(ExtractionError::ElementNotFound),
            Some(v) => v,
        };
        proof {
            if venta@.len() > 0 {
                assert(venta@.map_values(|s: String| s@)[0] == venta@[0]@);
            }
        }
        let precio_venta = match PrecioCotizacion::<T>::from_elements(&venta, tipo) {
            Ok(p) => p,
            Err(e) => return Err(e),
        };
        Ok(CotizacionCompraVenta { title, precio_compra, precio_venta })
    }
}

impl<T: core::str::FromStr> CotizacionValor<T> {
    /// Reads a single-value quote from a markup fragment: the title
    /// from the heading of the quote-data container and the value from
    /// its first price element, parsed as `T`; `tipo` is the caller's
    /// name for `T`, carried by conversion failures.
    pub fn from_html(content: &str, tipo: &str) -> (r: Result<Self, ExtractionError>)
        ensures
            match r {
                Ok(cv) => {
                    &&& spec_titulo(content@) == Some(cv.title@)
                    &&& spec_precio1(content@) is Some
                },
                Err(e) => match e {
                    ExtractionError::ElementNotFound => spec_titulo(content@) is None
                        || spec_precio1(content@) is None,
                    ExtractionError::ConversionError { text, tipo: t } => {
                        &&& spec_titulo(content@) is Some
                        &&& t@ == tipo@
                        &&& Some(text@) == spec_precio1(content@)
                    },
                },
            },
    {
        let titulos = match seleccionar_textos(content, ".container__data h2.data__titulo") {
            None => return Err(ExtractionError::ElementNotFound),
            Some(v) => v,
        };
        if titulos.len() == 0 {
            return Err(ExtractionError::ElementNotFound);
        }
        let title = titulos[0].clone();
        proof {
            assert(titulos@.map_values(|s: String| s@)[0] == titulos@[0]@);
        }
        let valores = match seleccionar_interiores(content, ".container__data p:nth-child(1)") {
            None => return Err(ExtractionError::ElementNotFound),
            Some(v) => v,
        };
        proof {
            if valores@.len() > 0 {
                assert(valores@.map_values(|s: String| s@)[0] == valores@[0]@);
            }
        }
        let valor = match PrecioCotizacion::<T>::from_elements(&valores, tipo) {
            Ok(p) => p,
            Err(e) => return Err(e),
        };
        Ok(CotizacionValor { title, valor })
    }
}

impl<T: Copy> PrecioCompraVenta<T> for CotizacionCompraVenta<T> {
    open spec fn spec_precio_compra_venta(&self) -> CompraVenta<T> {
        (self.precio_compra.precio, Some(self.precio_venta.precio))
    }

    open spec fn spec_title(&self) -> Seq<char> {
        self.title@
    }

    fn precio_compra_venta(&self) -> (r: CompraVenta<T>) {
        (self.precio_compra.precio, Some(self.precio_venta.precio))
    }

    fn title(&self) -> (r: String) {
        self.title.clone()
    }
}

impl<T: Copy> PrecioCompraVenta<T> for CotizacionValor<T> {
    open spec fn spec_precio_compra_venta(&self) -> CompraVenta<T> {
        (self.valor.precio, None)
    }

    open spec fn spec_title(&self) -> Seq<char> {
        self.title@
    }

    fn precio_compra_venta(&self) -> (r: CompraVenta<T>) {
        (self.valor.precio, None)
    }

    fn title(&self) -> (r: String) {
        self.title.clone()
    }
}

/// Law: extraction reads the fragment alone, so everything the model
/// pins down — the title and the numeric texts, all functions of the
/// fragment — is the same on every run over the same fragment. Stated
/// for the title: any two successful extractions carry the same one.
/// The parsed numeric value itself is the target type's reading of
/// that same numeric text.
pub proof fn lemma_extraccion_determinista(doc: Seq<char>, t1: Seq<char>, t2: Seq<char>)
    requires
        spec_titulo(doc) == Some(t1),
        spec_titulo(doc) == Some(t2),
    ensures
        t1 == t2,
{
}


} // verus!
