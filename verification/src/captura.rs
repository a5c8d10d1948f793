//! Screen capture: which screen is captured, with which encoder options, and
//! when the encoder is started again.

use vstd::prelude::*;
use vstd::string::*;

use crate::pantallas::{vistas_pantallas, Pantalla, PantallaReal};
use crate::texto::vistas;

verus! {

/// Milliseconds before the encoder is started again.
pub const PAUSA_RELANZAR_MS: u64 = 250;

// ---------------------------------------------------------------------------
// Hot switching
// ---------------------------------------------------------------------------

/// The monitor selected for transmission, and the channel through which a
/// running encoder is told to start again.
pub struct ConmutadorPantalla {
    pub secundaria: bool,
    pub reiniciar: Option<tokio::sync::mpsc::Sender<()>>,
}

/// Selects a monitor while transmitting. The encoder is told to start again
/// through the channel that comes back, if one is running.
pub fn conmutar_pantalla_caliente(conmutador: &mut ConmutadorPantalla, hacia_secundaria: bool) -> (r: Option<
    &tokio::sync::mpsc::Sender<()>,
>)
    ensures
        *final(conmutador) == (ConmutadorPantalla { secundaria: hacia_secundaria, ..*old(conmutador) }),
        match r {
            Some(tx) => old(conmutador).reiniciar == Some(*tx),
            None => old(conmutador).reiniciar is None,
        },
{
    conmutador.secundaria = hacia_secundaria;
    match &conmutador.reiniciar {
        Some(tx) => Some(tx),
        None => None,
    }
}

// ---------------------------------------------------------------------------
// The screen to capture
// ---------------------------------------------------------------------------

/// The index to capture on macOS: at the first start the one agreed with the
/// operator, later that of the selected monitor among those present.
pub open spec fn indice_macos(
    primer_arranque: bool,
    inicial: Seq<char>,
    ps: Seq<Pantalla>,
    secundaria: bool,
) -> Seq<char> {
    if primer_arranque {
        inicial
    } else if secundaria && ps.len() > 1 {
        ps[1].avf_index
    } else if ps.len() > 0 {
        ps[0].avf_index
    } else {
        "0"@
    }
}

/// The index to capture on macOS.
pub fn indice_captura_macos(
    primer_arranque: bool,
    inicial: &str,
    pantallas: &Vec<PantallaReal>,
    secundaria: bool,
) -> (r: String)
    ensures
        r@ == indice_macos(primer_arranque, inicial@, vistas_pantallas(pantallas@), secundaria),
{
    if primer_arranque {
        inicial.to_owned()
    } else if secundaria && pantallas.len() > 1 {
        pantallas[1].avf_index.clone()
    } else if pantallas.len() > 0 {
        pantallas[0].avf_index.clone()
    } else {
        "0".to_owned()
    }
}

/// The starts of the encoder within one session: the index agreed with the
/// operator, and whether it has still to be used.
pub struct ArranquesCaptura {
    primero: bool,
    inicial: String,
}

/// `ArranquesCaptura` over character sequences.
pub struct Arranques {
    pub primero: bool,
    pub inicial: Seq<char>,
}

impl View for ArranquesCaptura {
    type V = Arranques;

    closed spec fn view(&self) -> Arranques {
        Arranques { primero: self.primero, inicial: self.inicial@ }
    }
}

/// The starts that are left after one.
pub open spec fn tras_arrancar(a: Arranques) -> Arranques {
    Arranques { primero: false, ..a }
}

impl ArranquesCaptura {
    /// The starts of a session for which `inicial` was agreed.
    pub fn new(inicial: String) -> (r: Self)
        ensures
            r@ == (Arranques { primero: true, inicial: inicial@ }),
    {
        ArranquesCaptura { primero: true, inicial }
    }

    /// Whether the next start on macOS goes by the screens that are present.
    pub fn usa_listado(&self) -> (r: bool)
        ensures
            r == !self@.primero,
    {
        !self.primero
    }

    /// The index to capture at the next start on macOS.
    pub fn siguiente_indice_macos(&mut self, pantallas: &Vec<PantallaReal>, secundaria: bool) -> (r: String)
        ensures
            r@ == indice_macos(old(self)@.primero, old(self)@.inicial, vistas_pantallas(pantallas@), secundaria),
            final(self)@ == tras_arrancar(old(self)@),
    {
        let indice = indice_captura_macos(self.primero, self.inicial.as_str(), pantallas, secundaria);
        self.primero = false;
        indice
    }
}

/// The indices captured by successive starts on macOS, each given the screens
/// present at it and whether the secondary monitor is selected.
pub open spec fn indices_de_arranques(a: Arranques, presentes: Seq<(Seq<Pantalla>, bool)>) -> Seq<Seq<char>>
    decreases presentes.len(),
{
    if presentes.len() == 0 {
        seq![]
    } else {
        let (ps, secundaria) = presentes.first();
        seq![indice_macos(a.primero, a.inicial, ps, secundaria)] + indices_de_arranques(
            tras_arrancar(a),
            presentes.skip(1),
        )
    }
}

proof fn lemma_arranques(a: Arranques, presentes: Seq<(Seq<Pantalla>, bool)>, k: int)
    requires
        0 <= k < presentes.len(),
    ensures
        indices_de_arranques(a, presentes).len() == presentes.len(),
        indices_de_arranques(a, presentes)[k] == indice_macos(
            a.primero && k == 0,
            a.inicial,
            presentes[k].0,
            presentes[k].1,
        ),
    decreases presentes.len(),
{
    reveal_with_fuel(indices_de_arranques, 2);
    let resto = presentes.skip(1);
    if k > 0 {
        lemma_arranques(tras_arrancar(a), resto, k - 1);
    } else if resto.len() > 0 {
        lemma_arranques(tras_arrancar(a), resto, 0);
    }
}

/// The screen agreed with the operator is captured at the first start of a
/// session and never again on that account: every later start goes by the
/// screens that are present and the monitor that is selected then.
pub proof fn ley_lo_acordado_una_vez(inicial: Seq<char>, presentes: Seq<(Seq<Pantalla>, bool)>, k: int)
    requires
        0 <= k < presentes.len(),
    ensures
        ({
            let indices = indices_de_arranques(Arranques { primero: true, inicial }, presentes);
            &&& indices.len() == presentes.len()
            &&& k == 0 ==> indices[k] == inicial
            &&& forall|otro: Seq<char>|
                k > 0 ==> indices[k] == #[trigger] indice_macos(false, otro, presentes[k].0, presentes[k].1)
        }),
{
    lemma_arranques(Arranques { primero: true, inicial }, presentes, k);
}

/// The index to capture elsewhere: the number of the selected monitor.
pub fn indice_captura(secundaria: bool) -> (r: String)
    ensures
        r@ == if secundaria {
            "1"@
        } else {
            "0"@
        },
{
    if secundaria {
        "1".to_owned()
    } else {
        "0".to_owned()
    }
}

/// Switching while transmitting takes effect at the next start of the encoder:
/// of two screens, the selected one is captured.
pub proof fn ley_conmutar_cambia_captura(
    antes: ConmutadorPantalla,
    despues: ConmutadorPantalla,
    hacia_secundaria: bool,
    inicial: Seq<char>,
    ps: Seq<Pantalla>,
)
    requires
        despues == (ConmutadorPantalla { secundaria: hacia_secundaria, ..antes }),
        ps.len() > 1,
    ensures
        indice_macos(false, inicial, ps, despues.secundaria) == ps[if hacia_secundaria {
            1
        } else {
            0
        }].avf_index,
{
}

// ---------------------------------------------------------------------------
// The encoder
// ---------------------------------------------------------------------------

/// The encoder options on macOS for the screen at `indice`.
pub open spec fn opciones_macos(indice: Seq<char>) -> Seq<Seq<char>> {
    seq![
        "-nostdin"@,
        "-y"@,
        "-f"@,
        "avfoundation"@,
        "-capture_cursor"@,
        "1"@,
        "-pixel_format"@,
        "nv12"@,
        "-framerate"@,
        "30"@,
        "-i"@,
        indice + ":none"@,
        "-r"@,
        "30"@,
        "-vf"@,
        "scale=1280:720:force_original_aspect_ratio=decrease,pad=1280:720:(ow-iw)/2:(oh-ih)/2:color=black,format=yuv420p"@,
        "-vcodec"@,
        "h264_videotoolbox"@,
        "-realtime"@,
        "1"@,
        "-tune"@,
        "zerolatency"@,
        "-bf"@,
        "0"@,
        "-profile:v"@,
        "baseline"@,
        "-prio_speed"@,
        "1"@,
        "-b:v"@,
        "3500k"@,
        "-maxrate"@,
        "4000k"@,
        "-bufsize"@,
        "2000k"@,
        "-g"@,
        "30"@,
        "-keyint_min"@,
        "30"@,
        "-forced-idr"@,
        "1"@,
        "-bsf:v"@,
        "dump_extra"@,
        "-f"@,
        "rtp"@,
        "-payload_type"@,
        "96"@,
        "rtp://127.0.0.1:5004?pkt_size=1200&buffer_size=10485760"@,
    ]
}

/// The encoder options elsewhere for the screen at `indice`.
pub open spec fn opciones_x11(indice: Seq<char>) -> Seq<Seq<char>> {
    seq![
        "-nostdin"@,
        "-y"@,
        "-f"@,
        "x11grab"@,
        "-video_size"@,
        "1280x720"@,
        "-i"@,
        indice,
        "-r"@,
        "60"@,
        "-c:v"@,
        "h264_v4l2m2m"@,
        "-b:v"@,
        "3M"@,
        "-pix_fmt"@,
        "yuv420p"@,
        "-f"@,
        "rtp"@,
        "-payload_type"@,
        "96"@,
        "rtp://127.0.0.1:5004?pkt_size=1200"@,
    ]
}

/// The contents of a list of borrowed texts.
spec fn vistas_prestadas(v: Seq<&str>) -> Seq<Seq<char>> {
    v.map_values(|s: &str| s@)
}

fn en_propiedad(v: Vec<&str>) -> (r: Vec<String>)
    ensures
        vistas(r@) == vistas_prestadas(v@),
{
    let mut salida: Vec<String> = Vec::new();
    let mut i: usize = 0;
    while i < v.len()
        invariant
            i <= v.len(),
            vistas(salida@) =~= vistas_prestadas(v@).take(i as int),
        decreases v.len() - i,
    {
        let ghost previa = salida@;
        let t = v[i].to_owned();
        salida.push(t);
        assert(vistas(salida@) =~= vistas(previa).push(t@));
        i += 1;
    }
    salida
}

/// The encoder options on macOS for the screen at `indice`.
pub fn argumentos_macos(indice: &str) -> (r: Vec<String>)
    ensures
        vistas(r@) == opciones_macos(indice@),
        vistas(r@) == seq![
            "-nostdin"@,
            "-y"@,
            "-f"@,
            "avfoundation"@,
            "-capture_cursor"@,
            "1"@,
            "-pixel_format"@,
            "nv12"@,
            "-framerate"@,
            "30"@,
            "-i"@,
            indice@ + ":none"@,
            "-r"@,
            "30"@,
            "-vf"@,
            "scale=1280:720:force_original_aspect_ratio=decrease,pad=1280:720:(ow-iw)/2:(oh-ih)/2:color=black,format=yuv420p"@,
            "-vcodec"@,
            "h264_videotoolbox"@,
            "-realtime"@,
            "1"@,
            "-tune"@,
            "zerolatency"@,
            "-bf"@,
            "0"@,
            "-profile:v"@,
            "baseline"@,
            "-prio_speed"@,
            "1"@,
            "-b:v"@,
            "3500k"@,
            "-maxrate"@,
            "4000k"@,
            "-bufsize"@,
            "2000k"@,
            "-g"@,
            "30"@,
            "-keyint_min"@,
            "30"@,
            "-forced-idr"@,
            "1"@,
            "-bsf:v"@,
            "dump_extra"@,
            "-f"@,
            "rtp"@,
            "-payload_type"@,
            "96"@,
            "rtp://127.0.0.1:5004?pkt_size=1200&buffer_size=10485760"@,
        ],
{
    let mut entrada = indice.to_owned();
    entrada.append(":none");
    let v: Vec<&str> = vec![
        "-nostdin",
        "-y",
        "-f",
        "avfoundation",
        "-capture_cursor",
        "1",
        "-pixel_format",
        "nv12",
        "-framerate",
        "30",
        "-i",
        entrada.as_str(),
        "-r",
        "30",
        "-vf",
        "scale=1280:720:force_original_aspect_ratio=decrease,pad=1280:720:(ow-iw)/2:(oh-ih)/2:color=black,format=yuv420p",
        "-vcodec",
        "h264_videotoolbox",
        "-realtime",
        "1",
        "-tune",
        "zerolatency",
        "-bf",
        "0",
        "-profile:v",
        "baseline",
        "-prio_speed",
        "1",
        "-b:v",
        "3500k",
        "-maxrate",
        "4000k",
        "-bufsize",
        "2000k",
        "-g",
        "30",
        "-keyint_min",
        "30",
        "-forced-idr",
        "1",
        "-bsf:v",
        "dump_extra",
        "-f",
        "rtp",
        "-payload_type",
        "96",
        "rtp://127.0.0.1:5004?pkt_size=1200&buffer_size=10485760",
    ];
    assert(vistas_prestadas(v@) =~= opciones_macos(indice@));
    en_propiedad(v)
}

/// The encoder options elsewhere for the screen at `indice`.
pub fn argumentos_x11(indice: &str) -> (r: Vec<String>)
    ensures
        vistas(r@) == opciones_x11(indice@),
        vistas(r@) == seq![
            "-nostdin"@,
            "-y"@,
            "-f"@,
            "x11grab"@,
            "-video_size"@,
            "1280x720"@,
            "-i"@,
            indice@,
            "-r"@,
            "60"@,
            "-c:v"@,
            "h264_v4l2m2m"@,
            "-b:v"@,
            "3M"@,
            "-pix_fmt"@,
            "yuv420p"@,
            "-f"@,
            "rtp"@,
            "-payload_type"@,
            "96"@,
            "rtp://127.0.0.1:5004?pkt_size=1200"@,
        ],
{
    let v: Vec<&str> = vec![
        "-nostdin",
        "-y",
        "-f",
        "x11grab",
        "-video_size",
        "1280x720",
        "-i",
        indice,
        "-r",
        "60",
        "-c:v",
        "h264_v4l2m2m",
        "-b:v",
        "3M",
        "-pix_fmt",
        "yuv420p",
        "-f",
        "rtp",
        "-payload_type",
        "96",
        "rtp://127.0.0.1:5004?pkt_size=1200",
    ];
    assert(vistas_prestadas(v@) =~= opciones_x11(indice@));
    en_propiedad(v)
}

/// What happens while the encoder runs.
#[derive(Clone, Copy, Debug, PartialEq, Eq, Structural)]
pub enum EventoCaptura {
    /// The session is over.
    FinDeSesion,
    /// Another monitor has been selected.
    Conmutada,
    /// The encoder has stopped by itself.
    Parada,
}

/// What becomes of the encoder.
#[derive(Clone, Copy, Debug, PartialEq, Eq, Structural)]
pub enum AccionCaptura {
    /// Stop it for good.
    Terminar,
    /// Stop it where it still runs, wait, and start it again.
    Relanzar { matar: bool, pausa_ms: u64 },
}

/// What becomes of the encoder on an event: it runs until the session is over.
pub fn paso_captura(evento: EventoCaptura) -> (r: AccionCaptura)
    ensures
        r == match evento {
            EventoCaptura::FinDeSesion => AccionCaptura::Terminar,
            EventoCaptura::Conmutada => AccionCaptura::Relanzar { matar: true, pausa_ms: PAUSA_RELANZAR_MS },
            EventoCaptura::Parada => AccionCaptura::Relanzar { matar: false, pausa_ms: PAUSA_RELANZAR_MS },
        },
{
    match evento {
        EventoCaptura::FinDeSesion => AccionCaptura::Terminar,
        EventoCaptura::Conmutada => AccionCaptura::Relanzar { matar: true, pausa_ms: PAUSA_RELANZAR_MS },
        EventoCaptura::Parada => AccionCaptura::Relanzar { matar: false, pausa_ms: PAUSA_RELANZAR_MS },
    }
}

// ---------------------------------------------------------------------------
// What the encoder is asked for
// ---------------------------------------------------------------------------

/// The options give `opcion` the value `v`, before the input is named.
pub open spec fn antes_de_la_entrada(o: Seq<Seq<char>>, opcion: Seq<char>, v: Seq<char>) -> bool {
    exists|i: int, j: int|
        0 <= i && i + 1 < j && j + 1 < o.len() && #[trigger] o[i] == opcion && o[i + 1] == v && #[trigger] o[j] == "-i"@
}

/// The options give `opcion` the value `v`, behind the input.
pub open spec fn tras_la_entrada(o: Seq<Seq<char>>, opcion: Seq<char>, v: Seq<char>) -> bool {
    exists|i: int, j: int|
        0 <= j && j + 1 < i && i + 1 < o.len() && #[trigger] o[i] == opcion && o[i + 1] == v && #[trigger] o[j] == "-i"@
}

/// On macOS the screen at `indice`, with the cursor and without sound, is taken
/// from AVFoundation at 30 frames a second, encoded by VideoToolbox as baseline
/// H.264 in real time at 3500k, with a key frame every 30 frames, and sent as
/// RTP of payload type 96 to port 5004 of this machine.
pub proof fn ley_opciones_macos(indice: Seq<char>)
    ensures
        ({
            let o = opciones_macos(indice);
            &&& o.len() == 47
            &&& antes_de_la_entrada(o, "-f"@, "avfoundation"@)
            &&& antes_de_la_entrada(o, "-capture_cursor"@, "1"@)
            &&& antes_de_la_entrada(o, "-pixel_format"@, "nv12"@)
            &&& antes_de_la_entrada(o, "-framerate"@, "30"@)
            &&& o[10] == "-i"@ && o[11] == indice + ":none"@
            &&& tras_la_entrada(o, "-r"@, "30"@)
            &&& tras_la_entrada(
                o,
                "-vf"@,
                "scale=1280:720:force_original_aspect_ratio=decrease,pad=1280:720:(ow-iw)/2:(oh-ih)/2:color=black,format=yuv420p"@,
            )
            &&& tras_la_entrada(o, "-vcodec"@, "h264_videotoolbox"@)
            &&& tras_la_entrada(o, "-realtime"@, "1"@)
            &&& tras_la_entrada(o, "-tune"@, "zerolatency"@)
            &&& tras_la_entrada(o, "-bf"@, "0"@)
            &&& tras_la_entrada(o, "-profile:v"@, "baseline"@)
            &&& tras_la_entrada(o, "-prio_speed"@, "1"@)
            &&& tras_la_entrada(o, "-b:v"@, "3500k"@)
            &&& tras_la_entrada(o, "-maxrate"@, "4000k"@)
            &&& tras_la_entrada(o, "-bufsize"@, "2000k"@)
            &&& tras_la_entrada(o, "-g"@, "30"@)
            &&& tras_la_entrada(o, "-keyint_min"@, "30"@)
            &&& tras_la_entrada(o, "-forced-idr"@, "1"@)
            &&& tras_la_entrada(o, "-bsf:v"@, "dump_extra"@)
            &&& tras_la_entrada(o, "-f"@, "rtp"@)
            &&& tras_la_entrada(o, "-payload_type"@, "96"@)
            &&& o[0] == "-nostdin"@ && o[1] == "-y"@
            &&& o[46] == "rtp://127.0.0.1:5004?pkt_size=1200&buffer_size=10485760"@
        }),
{
    let o = opciones_macos(indice);
    assert(o[10] == "-i"@);
    assert(o[2] == "-f"@ && o[3] == "avfoundation"@);
    assert(o[4] == "-capture_cursor"@ && o[6] == "-pixel_format"@ && o[8] == "-framerate"@);
    assert(o[12] == "-r"@ && o[14] == "-vf"@ && o[16] == "-vcodec"@ && o[18] == "-realtime"@);
    assert(o[20] == "-tune"@ && o[22] == "-bf"@ && o[24] == "-profile:v"@ && o[26] == "-prio_speed"@);
    assert(o[28] == "-b:v"@ && o[30] == "-maxrate"@ && o[32] == "-bufsize"@ && o[34] == "-g"@);
    assert(o[36] == "-keyint_min"@ && o[38] == "-forced-idr"@ && o[40] == "-bsf:v"@);
    assert(o[42] == "-f"@ && o[43] == "rtp"@ && o[44] == "-payload_type"@);
}

/// Elsewhere the screen at `indice` is taken from X11 in 1280x720, encoded as
/// H.264 by the V4L2 device at 60 frames a second and 3M, and sent as RTP of
/// payload type 96 to port 5004 of this machine.
pub proof fn ley_opciones_x11(indice: Seq<char>)
    ensures
        ({
            let o = opciones_x11(indice);
            &&& o.len() == 21
            &&& antes_de_la_entrada(o, "-f"@, "x11grab"@)
            &&& antes_de_la_entrada(o, "-video_size"@, "1280x720"@)
            &&& o[6] == "-i"@ && o[7] == indice
            &&& tras_la_entrada(o, "-r"@, "60"@)
            &&& tras_la_entrada(o, "-c:v"@, "h264_v4l2m2m"@)
            &&& tras_la_entrada(o, "-b:v"@, "3M"@)
            &&& tras_la_entrada(o, "-pix_fmt"@, "yuv420p"@)
            &&& tras_la_entrada(o, "-f"@, "rtp"@)
            &&& tras_la_entrada(o, "-payload_type"@, "96"@)
            &&& o[0] == "-nostdin"@ && o[1] == "-y"@
            &&& o[20] == "rtp://127.0.0.1:5004?pkt_size=1200"@
        }),
{
    let o = opciones_x11(indice);
    assert(o[6] == "-i"@);
    assert(o[2] == "-f"@ && o[4] == "-video_size"@ && o[8] == "-r"@ && o[10] == "-c:v"@ && o[12] == "-b:v"@);
    assert(o[14] == "-pix_fmt"@ && o[16] == "-f"@ && o[18] == "-payload_type"@);
}

/// The first start captures the agreed screen. Every later one captures the
/// second of the screens present where the secondary monitor is selected and
/// there is one, else the first, and index zero where there is none.
pub proof fn ley_indice_macos(inicial: Seq<char>, ps: Seq<Pantalla>, secundaria: bool, a: Arranques)
    ensures
        indice_macos(true, inicial, ps, secundaria) == inicial,
        secundaria && ps.len() >= 2 ==> indice_macos(false, inicial, ps, secundaria) == ps[1].avf_index,
        !secundaria && ps.len() >= 1 ==> indice_macos(false, inicial, ps, secundaria) == ps[0].avf_index,
        ps.len() == 1 ==> indice_macos(false, inicial, ps, secundaria) == ps[0].avf_index,
        ps.len() == 0 ==> indice_macos(false, inicial, ps, secundaria) == "0"@,
        !tras_arrancar(a).primero,
        tras_arrancar(a).inicial == a.inicial,
{
}

/// The encoder gets a quarter of a second before it is started again.
pub proof fn ley_pausa_del_codificador()
    ensures
        PAUSA_RELANZAR_MS == 250,
{
}

} // verus!
