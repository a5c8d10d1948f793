//! One download: from the request to the file on disk.

use vstd::prelude::*;
use vstd::string::*;

use crate::texto::{a_decimal, decimal};

verus! {

/// Where announced files are stored.
pub open spec fn directorio() -> Seq<char> {
    "./guardian_downloads"@
}

/// Where announced files are stored.
pub fn directorio_descargas() -> (r: &'static str)
    ensures
        r@ == directorio(),
{
    "./guardian_downloads"
}

/// How far a download has come. While writing, the bytes on disk are counted.
#[derive(Clone, Copy, Debug, PartialEq, Eq, Structural)]
pub enum FaseDescarga {
    Solicitada,
    Aceptada,
    Escribiendo { bytes_total: usize },
    Terminada,
}

/// What happens to a download.
#[derive(Clone, Debug, PartialEq, Eq)]
pub enum EventoDescarga {
    /// The server sends the file.
    Aceptada,
    /// The server answers with an error status.
    Rechazada { status: String },
    /// The server cannot be reached.
    SinConexion { error: String },
    /// The local file is open.
    ArchivoCreado,
    /// The local file cannot be opened.
    ArchivoFallido,
    /// A piece has arrived; `escrito` says whether it is on disk.
    Trozo { bytes: usize, escrito: bool },
    /// The server sends no more.
    Fin,
}

/// What a download does next.
#[derive(Clone, Debug, PartialEq, Eq)]
pub enum AccionDescarga {
    /// Open the local file at this path.
    CrearArchivo { ruta: String },
    /// Wait for the next piece.
    LeerTrozo,
    /// Stop, and report this line.
    Terminar { informe: String },
}

/// `EventoDescarga` over character sequences.
pub enum Suceso {
    Aceptada,
    Rechazada(Seq<char>),
    SinConexion(Seq<char>),
    ArchivoCreado,
    ArchivoFallido,
    Trozo { bytes: nat, escrito: bool },
    Fin,
}

/// `AccionDescarga` over character sequences.
pub enum Paso {
    CrearArchivo(Seq<char>),
    LeerTrozo,
    Terminar(Seq<char>),
}

impl View for EventoDescarga {
    type V = Suceso;

    open spec fn view(&self) -> Suceso {
        match *self {
            EventoDescarga::Aceptada => Suceso::Aceptada,
            EventoDescarga::Rechazada { status } => Suceso::Rechazada(status@),
            EventoDescarga::SinConexion { error } => Suceso::SinConexion(error@),
            EventoDescarga::ArchivoCreado => Suceso::ArchivoCreado,
            EventoDescarga::ArchivoFallido => Suceso::ArchivoFallido,
            EventoDescarga::Trozo { bytes, escrito } => Suceso::Trozo { bytes: bytes as nat, escrito },
            EventoDescarga::Fin => Suceso::Fin,
        }
    }
}

impl View for AccionDescarga {
    type V = Paso;

    open spec fn view(&self) -> Paso {
        match *self {
            AccionDescarga::CrearArchivo { ruta } => Paso::CrearArchivo(ruta@),
            AccionDescarga::LeerTrozo => Paso::LeerTrozo,
            AccionDescarga::Terminar { informe } => Paso::Terminar(informe@),
        }
    }
}

/// A download over character sequences and natural numbers.
pub enum Avance {
    Solicitada,
    Aceptada,
    Escribiendo(nat),
    Terminada,
}

/// `FaseDescarga` with natural numbers.
pub open spec fn avance(f: FaseDescarga) -> Avance {
    match f {
        FaseDescarga::Solicitada => Avance::Solicitada,
        FaseDescarga::Aceptada => Avance::Aceptada,
        FaseDescarga::Escribiendo { bytes_total } => Avance::Escribiendo(bytes_total as nat),
        FaseDescarga::Terminada => Avance::Terminada,
    }
}

/// The event can happen at this point of a download.
pub open spec fn cabe(f: Avance, s: Suceso) -> bool {
    match f {
        Avance::Solicitada => s is Aceptada || s is Rechazada || s is SinConexion,
        Avance::Aceptada => s is ArchivoCreado || s is ArchivoFallido,
        Avance::Escribiendo(_) => s is Trozo || s is Fin,
        Avance::Terminada => false,
    }
}

/// The download after an event. Only pieces that reached the disk are counted.
pub open spec fn avanza(f: Avance, s: Suceso) -> Avance {
    match (f, s) {
        (_, Suceso::Aceptada) => Avance::Aceptada,
        (_, Suceso::ArchivoCreado) => Avance::Escribiendo(0),
        (Avance::Escribiendo(n), Suceso::Trozo { bytes, escrito }) => if escrito {
            Avance::Escribiendo(n + bytes)
        } else {
            Avance::Escribiendo(n)
        },
        _ => Avance::Terminada,
    }
}

/// What the download of `archivo` does on an event.
pub open spec fn responde(archivo: Seq<char>, f: Avance, s: Suceso) -> Paso {
    match (f, s) {
        (_, Suceso::Aceptada) => Paso::CrearArchivo(directorio() + "/"@ + archivo),
        (_, Suceso::Rechazada(status)) => Paso::Terminar("[ERROR] Servidor rechazó la descarga: "@ + status),
        (_, Suceso::SinConexion(error)) => Paso::Terminar(
            "[STREAM ERROR] Conexión interrumpida en "@ + archivo + ": "@ + error,
        ),
        (_, Suceso::ArchivoCreado) => Paso::LeerTrozo,
        (_, Suceso::ArchivoFallido) => Paso::Terminar("[ERROR] No se pudo crear el archivo local "@ + archivo),
        (_, Suceso::Trozo { .. }) => Paso::LeerTrozo,
        (Avance::Escribiendo(n), Suceso::Fin) => Paso::Terminar(
            "[STREAM] ✅ Archivo '"@ + archivo + "' guardado ("@ + decimal(n) + " bytes)."@,
        ),
        (_, Suceso::Fin) => Paso::LeerTrozo,
    }
}

/// A download in progress.
pub struct Descarga {
    archivo: String,
    fase: FaseDescarga,
}

impl Descarga {
    /// The name of the file.
    pub closed spec fn archivo(&self) -> Seq<char> {
        self.archivo@
    }

    /// How far the download has come.
    pub closed spec fn avance(&self) -> Avance {
        avance(self.fase)
    }

    /// Starts the download of a file; the line that comes with it announces it.
    pub fn new(archivo: &str) -> (r: (Self, String))
        ensures
            r.0.archivo() == archivo@,
            r.0.avance() == Avance::Solicitada,
            r.1@ == "[STREAM] Recibiendo y ensamblando binario: "@ + archivo@,
    {
        let mut linea = "[STREAM] Recibiendo y ensamblando binario: ".to_owned();
        linea.append(archivo);
        (Descarga { archivo: archivo.to_owned(), fase: FaseDescarga::Solicitada }, linea)
    }

    /// How far the download has come.
    pub fn fase(&self) -> (r: FaseDescarga)
        ensures
            avance(r) == self.avance(),
    {
        self.fase
    }

    /// Takes an event and says what comes next. The bytes of a file are counted
    /// in a `usize`.
    pub fn paso(&mut self, evento: EventoDescarga) -> (r: AccionDescarga)
        requires
            cabe(old(self).avance(), evento@),
            match avanza(old(self).avance(), evento@) {
                Avance::Escribiendo(n) => n <= usize::MAX,
                _ => true,
            },
        ensures
            final(self).archivo() == old(self).archivo(),
            final(self).avance() == avanza(old(self).avance(), evento@),
            r@ == responde(old(self).archivo(), old(self).avance(), evento@),
    {
        match evento {
            EventoDescarga::Aceptada => {
                self.fase = FaseDescarga::Aceptada;
                let mut ruta = directorio_descargas().to_owned();
                ruta.append("/");
                ruta.append(self.archivo.as_str());
                AccionDescarga::CrearArchivo { ruta }
            },
            EventoDescarga::Rechazada { status } => {
                self.fase = FaseDescarga::Terminada;
                let mut informe = "[ERROR] Servidor rechazó la descarga: ".to_owned();
                informe.append(status.as_str());
                AccionDescarga::Terminar { informe }
            },
            EventoDescarga::SinConexion { error } => {
                self.fase = FaseDescarga::Terminada;
                let mut informe = "[STREAM ERROR] Conexión interrumpida en ".to_owned();
                informe.append(self.archivo.as_str());
                informe.append(": ");
                informe.append(error.as_str());
                AccionDescarga::Terminar { informe }
            },
            EventoDescarga::ArchivoCreado => {
                self.fase = FaseDescarga::Escribiendo { bytes_total: 0 };
                AccionDescarga::LeerTrozo
            },
            EventoDescarga::ArchivoFallido => {
                self.fase = FaseDescarga::Terminada;
                let mut informe = "[ERROR] No se pudo crear el archivo local ".to_owned();
                informe.append(self.archivo.as_str());
                AccionDescarga::Terminar { informe }
            },
            EventoDescarga::Trozo { bytes, escrito } => {
                if let FaseDescarga::Escribiendo { bytes_total } = self.fase {
                    if escrito {
                        self.fase = FaseDescarga::Escribiendo { bytes_total: bytes_total + bytes };
                    }
                }
                AccionDescarga::LeerTrozo
            },
            EventoDescarga::Fin => {
                let mut informe = "[STREAM] ✅ Archivo '".to_owned();
                informe.append(self.archivo.as_str());
                informe.append("' guardado (");
                if let FaseDescarga::Escribiendo { bytes_total } = self.fase {
                    informe.append(a_decimal(bytes_total).as_str());
                }
                informe.append(" bytes).");
                self.fase = FaseDescarga::Terminada;
                AccionDescarga::Terminar { informe }
            },
        }
    }
}

// ---------------------------------------------------------------------------
// Whole downloads
// ---------------------------------------------------------------------------

/// The download after several events, in order.
pub open spec fn avanza_con(f: Avance, ss: Seq<Suceso>) -> Avance
    decreases ss.len(),
{
    if ss.len() == 0 {
        f
    } else {
        avanza(avanza_con(f, ss.drop_last()), ss.last())
    }
}

/// The bytes of the pieces that reached the disk.
pub open spec fn bytes_escritos(ss: Seq<Suceso>) -> nat
    decreases ss.len(),
{
    if ss.len() == 0 {
        0
    } else {
        bytes_escritos(ss.drop_last()) + match ss.last() {
            Suceso::Trozo { bytes, escrito } => if escrito {
                bytes
            } else {
                0
            },
            _ => 0,
        }
    }
}

/// The report at the end of a download counts exactly the bytes of the pieces
/// that reached the disk, however many pieces there were.
pub proof fn ley_informe_cuenta_lo_escrito(archivo: Seq<char>, trozos: Seq<Suceso>)
    requires
        forall|i: int| 0 <= i < trozos.len() ==> #[trigger] trozos[i] is Trozo,
    ensures
        ({
            let f = avanza_con(avanza(avanza(Avance::Solicitada, Suceso::Aceptada), Suceso::ArchivoCreado), trozos);
            &&& f == Avance::Escribiendo(bytes_escritos(trozos))
            &&& responde(archivo, f, Suceso::Fin) == Paso::Terminar(
                "[STREAM] ✅ Archivo '"@ + archivo + "' guardado ("@ + decimal(bytes_escritos(trozos)) + " bytes)."@,
            )
        }),
    decreases trozos.len(),
{
    if trozos.len() > 0 {
        assert(trozos.last() is Trozo);
        ley_informe_cuenta_lo_escrito(archivo, trozos.drop_last());
    }
}

/// A download that stops reports exactly then, and does nothing afterwards.
pub proof fn ley_termina_con_informe(archivo: Seq<char>, f: Avance, s: Suceso)
    requires
        cabe(f, s),
    ensures
        avanza(f, s) is Terminada <==> responde(archivo, f, s) is Terminar,
        avanza(f, s) is Terminada ==> forall|t: Suceso| !cabe(avanza(f, s), t),
{
}

/// A file is stored under its own name in the download directory, and the report
/// of a download says what became of it: saved, with its size; refused, with the
/// status; not reached, with the error; or not creatable.
pub proof fn ley_destino_e_informes(archivo: Seq<char>, f: Avance, n: nat, t: Seq<char>)
    ensures
        directorio() == "./guardian_downloads"@,
        responde(archivo, f, Suceso::Aceptada) == Paso::CrearArchivo("./guardian_downloads"@ + "/"@ + archivo),
        responde(archivo, Avance::Escribiendo(n), Suceso::Fin) == Paso::Terminar(
            "[STREAM] ✅ Archivo '"@ + archivo + "' guardado ("@ + decimal(n) + " bytes)."@,
        ),
        responde(archivo, f, Suceso::Rechazada(t)) == Paso::Terminar("[ERROR] Servidor rechazó la descarga: "@ + t),
        responde(archivo, f, Suceso::SinConexion(t)) == Paso::Terminar(
            "[STREAM ERROR] Conexión interrumpida en "@ + archivo + ": "@ + t,
        ),
        responde(archivo, f, Suceso::ArchivoFallido) == Paso::Terminar(
            "[ERROR] No se pudo crear el archivo local "@ + archivo,
        ),
        responde(archivo, f, Suceso::ArchivoCreado) is LeerTrozo,
{
}

/// The course of a download: asked for, accepted, written piece by piece, done.
/// It goes on reading whatever becomes of a piece; pieces that reached the disk
/// add their bytes and the others nothing; every refusal, failure and end is the
/// end.
pub proof fn ley_curso_de_la_descarga(archivo: Seq<char>, n: nat, bytes: nat, escrito: bool, s: Suceso, f: Avance)
    ensures
        cabe(Avance::Solicitada, s) <==> s is Aceptada || s is Rechazada || s is SinConexion,
        cabe(Avance::Aceptada, s) <==> s is ArchivoCreado || s is ArchivoFallido,
        cabe(Avance::Escribiendo(n), s) <==> s is Trozo || s is Fin,
        !cabe(Avance::Terminada, s),
        avanza(Avance::Solicitada, Suceso::Aceptada) is Aceptada,
        avanza(Avance::Aceptada, Suceso::ArchivoCreado) == Avance::Escribiendo(0),
        avanza(Avance::Escribiendo(n), Suceso::Trozo { bytes, escrito: true }) == Avance::Escribiendo(n + bytes),
        avanza(Avance::Escribiendo(n), Suceso::Trozo { bytes, escrito: false }) == Avance::Escribiendo(n),
        responde(archivo, Avance::Escribiendo(n), Suceso::Trozo { bytes, escrito }) is LeerTrozo,
        s is Rechazada || s is SinConexion || s is ArchivoFallido || s is Fin ==> avanza(f, s) is Terminada,
{
}

/// What a download is told, does and has reached is read with all it holds.
pub proof fn ley_vistas_de_la_descarga(t: String, bytes: usize, escrito: bool)
    ensures
        (EventoDescarga::Rechazada { status: t })@ == Suceso::Rechazada(t@),
        (EventoDescarga::SinConexion { error: t })@ == Suceso::SinConexion(t@),
        (EventoDescarga::Trozo { bytes, escrito })@ == (Suceso::Trozo { bytes: bytes as nat, escrito }),
        EventoDescarga::Aceptada@ is Aceptada,
        EventoDescarga::ArchivoCreado@ is ArchivoCreado,
        EventoDescarga::ArchivoFallido@ is ArchivoFallido,
        EventoDescarga::Fin@ is Fin,
        (AccionDescarga::CrearArchivo { ruta: t })@ == Paso::CrearArchivo(t@),
        (AccionDescarga::Terminar { informe: t })@ == Paso::Terminar(t@),
        AccionDescarga::LeerTrozo@ is LeerTrozo,
        avance(FaseDescarga::Solicitada) is Solicitada,
        avance(FaseDescarga::Aceptada) is Aceptada,
        avance(FaseDescarga::Escribiendo { bytes_total: bytes }) == Avance::Escribiendo(bytes as nat),
        avance(FaseDescarga::Terminada) is Terminada,
{
}

} // verus!
