//! Remote input: what the viewer's commands do to keyboard, mouse and
//! clipboard.

use vstd::prelude::*;
use vstd::string::*;

use crate::texto::iguales;

verus! {

/// Milliseconds that the system gets to take in new clipboard contents.
pub const PAUSA_PORTAPAPELES_MS: u64 = 150;

/// Milliseconds for which the paste shortcut is held down.
pub const PAUSA_PEGADO_MS: u64 = 50;

// ---------------------------------------------------------------------------
// Keys
// ---------------------------------------------------------------------------

/// A key that can be simulated.
#[derive(Clone, Copy, Debug, PartialEq, Eq, Structural)]
pub enum Tecla {
    Return,
    Backspace,
    Tab,
    Escape,
    Space,
    UpArrow,
    DownArrow,
    LeftArrow,
    RightArrow,
    Meta,
    Shift,
    Control,
    Alt,
    Unicode(char),
}

/// The key that a name stands for: one of the named keys or a single ASCII
/// character.
pub open spec fn tecla_de(s: Seq<char>) -> Option<Tecla> {
    if s == "Enter"@ {
        Some(Tecla::Return)
    } else if s == "Backspace"@ {
        Some(Tecla::Backspace)
    } else if s == "Tab"@ {
        Some(Tecla::Tab)
    } else if s == "Escape"@ {
        Some(Tecla::Escape)
    } else if s == "Space"@ || s == " "@ {
        Some(Tecla::Space)
    } else if s == "ArrowUp"@ {
        Some(Tecla::UpArrow)
    } else if s == "ArrowDown"@ {
        Some(Tecla::DownArrow)
    } else if s == "ArrowLeft"@ {
        Some(Tecla::LeftArrow)
    } else if s == "ArrowRight"@ {
        Some(Tecla::RightArrow)
    } else if s == "Meta"@ || s == "Command"@ {
        Some(Tecla::Meta)
    } else if s == "Shift"@ {
        Some(Tecla::Shift)
    } else if s == "Control"@ {
        Some(Tecla::Control)
    } else if s == "Alt"@ {
        Some(Tecla::Alt)
    } else if s.len() == 1 && s[0] <= '\u{7f}' {
        Some(Tecla::Unicode(s[0]))
    } else {
        None
    }
}

/// The key that a name stands for.
pub fn mapear_tecla(key_str: &str) -> (r: Option<Tecla>)
    ensures
        r == tecla_de(key_str@),
{
    if iguales(key_str, "Enter") {
        Some(Tecla::Return)
    } else if iguales(key_str, "Backspace") {
        Some(Tecla::Backspace)
    } else if iguales(key_str, "Tab") {
        Some(Tecla::Tab)
    } else if iguales(key_str, "Escape") {
        Some(Tecla::Escape)
    } else if iguales(key_str, "Space") || iguales(key_str, " ") {
        Some(Tecla::Space)
    } else if iguales(key_str, "ArrowUp") {
        Some(Tecla::UpArrow)
    } else if iguales(key_str, "ArrowDown") {
        Some(Tecla::DownArrow)
    } else if iguales(key_str, "ArrowLeft") {
        Some(Tecla::LeftArrow)
    } else if iguales(key_str, "ArrowRight") {
        Some(Tecla::RightArrow)
    } else if iguales(key_str, "Meta") || iguales(key_str, "Command") {
        Some(Tecla::Meta)
    } else if iguales(key_str, "Shift") {
        Some(Tecla::Shift)
    } else if iguales(key_str, "Control") {
        Some(Tecla::Control)
    } else if iguales(key_str, "Alt") {
        Some(Tecla::Alt)
    } else if key_str.unicode_len() == 1 && key_str.get_char(0) <= '\u{7f}' {
        Some(Tecla::Unicode(key_str.get_char(0)))
    } else {
        None
    }
}

// ---------------------------------------------------------------------------
// Commands
// ---------------------------------------------------------------------------

/// A command of the viewer, but for the pointer coordinates, which are scaled
/// where the pointer is moved.
#[derive(Clone, Debug, PartialEq, Eq)]
pub struct CommandPayload {
    pub event: String,
    pub button: String,
    pub key: String,
    pub text: String,
    pub delta_x: i32,
    pub delta_y: i32,
}

/// What is done to the devices.
#[derive(Clone, Debug, PartialEq, Eq)]
pub enum AccionEntrada {
    /// Move the pointer to the coordinates of the command, on the monitor to the
    /// right of the primary one where `desplazada`.
    MoverRaton { desplazada: bool },
    /// Press or release a mouse button: the right or the left one.
    Boton { derecho: bool, presionar: bool },
    /// Turn the wheel, vertically or horizontally.
    Rueda { cantidad: i32, vertical: bool },
    /// Type a character.
    Escribir { caracter: char },
    /// Press or release a key.
    Pulsar { tecla: Tecla, presionar: bool },
    /// Put a text on the clipboard and then, where it took the text and `pegar`,
    /// paste it.
    Copiar { texto: String, pegar: bool },
    /// Wait.
    Pausa { ms: u64 },
}

/// `AccionEntrada` over character sequences.
pub enum Accion {
    MoverRaton(bool),
    Boton { derecho: bool, presionar: bool },
    Rueda { cantidad: i32, vertical: bool },
    Escribir(char),
    Pulsar { tecla: Tecla, presionar: bool },
    Copiar { texto: Seq<char>, pegar: bool },
    Pausa(u64),
}

impl View for AccionEntrada {
    type V = Accion;

    open spec fn view(&self) -> Accion {
        match *self {
            AccionEntrada::MoverRaton { desplazada } => Accion::MoverRaton(desplazada),
            AccionEntrada::Boton { derecho, presionar } => Accion::Boton { derecho, presionar },
            AccionEntrada::Rueda { cantidad, vertical } => Accion::Rueda { cantidad, vertical },
            AccionEntrada::Escribir { caracter } => Accion::Escribir(caracter),
            AccionEntrada::Pulsar { tecla, presionar } => Accion::Pulsar { tecla, presionar },
            AccionEntrada::Copiar { texto, pegar } => Accion::Copiar { texto: texto@, pegar },
            AccionEntrada::Pausa { ms } => Accion::Pausa(ms),
        }
    }
}

/// The contents of a list of actions.
pub open spec fn vistas_acciones(v: Seq<AccionEntrada>) -> Seq<Accion> {
    v.map_values(|a: AccionEntrada| a@)
}

/// What pressing the key of a name does: characters are typed, other keys are
/// held down.
pub open spec fn al_bajar(key: Seq<char>) -> Seq<Accion> {
    match tecla_de(key) {
        Some(Tecla::Unicode(c)) => seq![Accion::Escribir(c)],
        Some(t) => seq![Accion::Pulsar { tecla: t, presionar: true }],
        None => seq![],
    }
}

/// What releasing the key of a name does: typed characters need no release.
pub open spec fn al_subir(key: Seq<char>) -> Seq<Accion> {
    match tecla_de(key) {
        Some(Tecla::Unicode(_)) => seq![],
        Some(t) => seq![Accion::Pulsar { tecla: t, presionar: false }],
        None => seq![],
    }
}

/// What turning the wheel does: first up or down, then sideways, and nothing
/// where the distance is zero.
pub open spec fn al_rodar(delta_x: i32, delta_y: i32) -> Seq<Accion> {
    let vertical = if delta_y != 0 {
        seq![Accion::Rueda { cantidad: delta_y, vertical: true }]
    } else {
        seq![]
    };
    let horizontal = if delta_x != 0 {
        seq![Accion::Rueda { cantidad: delta_x, vertical: false }]
    } else {
        seq![]
    };
    vertical + horizontal
}

/// What a command does. `secundaria` says whether the secondary monitor is being
/// shown. Unknown events do nothing.
pub open spec fn acciones_de(cmd: CommandPayload, secundaria: bool) -> Seq<Accion> {
    let e = cmd.event@;
    if e == "mouse_move"@ {
        seq![Accion::MoverRaton(secundaria)]
    } else if e == "mouse_down"@ {
        seq![Accion::Boton { derecho: cmd.button@ == "right"@, presionar: true }]
    } else if e == "mouse_up"@ {
        seq![Accion::Boton { derecho: cmd.button@ == "right"@, presionar: false }]
    } else if e == "scroll"@ {
        al_rodar(cmd.delta_x, cmd.delta_y)
    } else if e == "key_down"@ {
        al_bajar(cmd.key@)
    } else if e == "key_up"@ {
        al_subir(cmd.key@)
    } else if e == "clipboard_inject"@ {
        seq![Accion::Copiar { texto: cmd.text@, pegar: true }]
    } else if e == "clipboard_sync"@ {
        seq![Accion::Copiar { texto: cmd.text@, pegar: false }]
    } else {
        seq![]
    }
}

/// What a command does.
pub fn interpretar(cmd: &CommandPayload, secundaria: bool) -> (r: Vec<AccionEntrada>)
    ensures
        vistas_acciones(r@) == acciones_de(*cmd, secundaria),
{
    let mut v: Vec<AccionEntrada> = Vec::new();
    let e = cmd.event.as_str();
    if iguales(e, "mouse_move") {
        v.push(AccionEntrada::MoverRaton { desplazada: secundaria });
    } else if iguales(e, "mouse_down") {
        v.push(AccionEntrada::Boton { derecho: iguales(cmd.button.as_str(), "right"), presionar: true });
    } else if iguales(e, "mouse_up") {
        v.push(AccionEntrada::Boton { derecho: iguales(cmd.button.as_str(), "right"), presionar: false });
    } else if iguales(e, "scroll") {
        if cmd.delta_y != 0 {
            v.push(AccionEntrada::Rueda { cantidad: cmd.delta_y, vertical: true });
        }
        if cmd.delta_x != 0 {
            v.push(AccionEntrada::Rueda { cantidad: cmd.delta_x, vertical: false });
        }
    } else if iguales(e, "key_down") {
        match mapear_tecla(cmd.key.as_str()) {
            Some(Tecla::Unicode(c)) => v.push(AccionEntrada::Escribir { caracter: c }),
            Some(t) => v.push(AccionEntrada::Pulsar { tecla: t, presionar: true }),
            None => {},
        }
    } else if iguales(e, "key_up") {
        match mapear_tecla(cmd.key.as_str()) {
            Some(Tecla::Unicode(_)) => {},
            Some(t) => v.push(AccionEntrada::Pulsar { tecla: t, presionar: false }),
            None => {},
        }
    } else if iguales(e, "clipboard_inject") {
        v.push(AccionEntrada::Copiar { texto: cmd.text.clone(), pegar: true });
    } else if iguales(e, "clipboard_sync") {
        v.push(AccionEntrada::Copiar { texto: cmd.text.clone(), pegar: false });
    }
    assert(vistas_acciones(v@) =~= acciones_de(*cmd, secundaria));
    v
}

// ---------------------------------------------------------------------------
// Pasting
// ---------------------------------------------------------------------------

/// The key that makes a shortcut of `v`: Command on macOS, Control elsewhere.
pub open spec fn modificador(macos: bool) -> Tecla {
    if macos {
        Tecla::Meta
    } else {
        Tecla::Control
    }
}

/// The actions that paste the clipboard: wait, release what may be stuck, and
/// strike the shortcut.
pub open spec fn pegado(macos: bool) -> Seq<Accion> {
    let m = modificador(macos);
    seq![
        Accion::Pausa(PAUSA_PORTAPAPELES_MS),
        Accion::Pulsar { tecla: Tecla::Control, presionar: false },
        Accion::Pulsar { tecla: Tecla::Meta, presionar: false },
        Accion::Pulsar { tecla: Tecla::Shift, presionar: false },
        Accion::Pulsar { tecla: m, presionar: true },
        Accion::Pulsar { tecla: Tecla::Unicode('v'), presionar: true },
        Accion::Pausa(PAUSA_PEGADO_MS),
        Accion::Pulsar { tecla: Tecla::Unicode('v'), presionar: false },
        Accion::Pulsar { tecla: m, presionar: false },
    ]
}

/// The actions that paste the clipboard.
pub fn secuencia_pegado(macos: bool) -> (r: Vec<AccionEntrada>)
    ensures
        vistas_acciones(r@) == pegado(macos),
{
    let m = if macos {
        Tecla::Meta
    } else {
        Tecla::Control
    };
    let mut v: Vec<AccionEntrada> = Vec::new();
    v.push(AccionEntrada::Pausa { ms: PAUSA_PORTAPAPELES_MS });
    v.push(AccionEntrada::Pulsar { tecla: Tecla::Control, presionar: false });
    v.push(AccionEntrada::Pulsar { tecla: Tecla::Meta, presionar: false });
    v.push(AccionEntrada::Pulsar { tecla: Tecla::Shift, presionar: false });
    v.push(AccionEntrada::Pulsar { tecla: m, presionar: true });
    v.push(AccionEntrada::Pulsar { tecla: Tecla::Unicode('v'), presionar: true });
    v.push(AccionEntrada::Pausa { ms: PAUSA_PEGADO_MS });
    v.push(AccionEntrada::Pulsar { tecla: Tecla::Unicode('v'), presionar: false });
    v.push(AccionEntrada::Pulsar { tecla: m, presionar: false });
    assert(vistas_acciones(v@) =~= pegado(macos));
    v
}

/// What follows the attempt to put a text on the clipboard: it is pasted only
/// where that was asked for and the clipboard took the text.
pub open spec fn tras_copia(copiado: bool, pegar: bool, macos: bool) -> Seq<Accion> {
    if copiado && pegar {
        pegado(macos)
    } else {
        seq![]
    }
}

/// What follows the attempt to put a text on the clipboard.
pub fn tras_copiar(copiado: bool, pegar: bool, macos: bool) -> (r: Vec<AccionEntrada>)
    ensures
        vistas_acciones(r@) == tras_copia(copiado, pegar, macos),
{
    if copiado && pegar {
        secuencia_pegado(macos)
    } else {
        let v: Vec<AccionEntrada> = Vec::new();
        assert(vistas_acciones(v@) =~= seq![]);
        v
    }
}

/// Syncing the clipboard is silent: it does nothing but put the text there. An
/// injected text is put there too, and pasted exactly where the clipboard took
/// it.
pub proof fn ley_portapapeles(cmd: CommandPayload, secundaria: bool, copiado: bool, macos: bool)
    ensures
        cmd.event@ == "clipboard_sync"@ ==> {
            &&& acciones_de(cmd, secundaria) == seq![Accion::Copiar { texto: cmd.text@, pegar: false }]
            &&& tras_copia(copiado, false, macos) == Seq::<Accion>::empty()
        },
        cmd.event@ == "clipboard_inject"@ ==> {
            &&& acciones_de(cmd, secundaria) == seq![Accion::Copiar { texto: cmd.text@, pegar: true }]
            &&& tras_copia(true, true, macos) == pegado(macos)
            &&& tras_copia(false, true, macos) == Seq::<Accion>::empty()
        },
{
    reveal_strlit("mouse_move");
    reveal_strlit("mouse_down");
    reveal_strlit("mouse_up");
    reveal_strlit("scroll");
    reveal_strlit("key_down");
    reveal_strlit("key_up");
    reveal_strlit("clipboard_inject");
    reveal_strlit("clipboard_sync");
    assert("clipboard_sync"@.len() == 14 && "clipboard_inject"@.len() == 16);
    assert("mouse_move"@.len() == 10 && "mouse_down"@.len() == 10 && "mouse_up"@.len() == 8);
    assert("scroll"@.len() == 6 && "key_down"@.len() == 8 && "key_up"@.len() == 6);
}

// ---------------------------------------------------------------------------
// The monitor under the pointer
// ---------------------------------------------------------------------------

/// What the input worker knows of the monitors: the size of the primary one and
/// whether the secondary one was shown at the last command.
pub struct MonitorEntrada {
    pub ancho: i32,
    pub alto: i32,
    pub secundaria: bool,
}

impl MonitorEntrada {
    /// `medida` is the size of the primary monitor, where it could be measured.
    pub fn new(medida: Option<(i32, i32)>, secundaria: bool) -> (r: Self)
        ensures
            (r.ancho, r.alto) == (match medida {
                Some(m) => m,
                None => (1920i32, 1080i32),
            }),
            r.secundaria == secundaria,
    {
        match medida {
            Some((ancho, alto)) => MonitorEntrada { ancho, alto, secundaria },
            None => MonitorEntrada { ancho: 1920, alto: 1080, secundaria },
        }
    }

    /// Takes note of the monitor shown at a command and tells whether it has
    /// changed, so that the input device is opened anew.
    pub fn seguir(&mut self, secundaria: bool) -> (r: bool)
        ensures
            r == (old(self).secundaria != secundaria),
            *final(self) == (MonitorEntrada { secundaria, ..*old(self) }),
    {
        let cambia = self.secundaria != secundaria;
        self.secundaria = secundaria;
        cambia
    }

    /// Takes the size measured by the newly opened device, if it measured one.
    pub fn medir(&mut self, medida: Option<(i32, i32)>)
        ensures
            *final(self) == (match medida {
                Some((ancho, alto)) => MonitorEntrada { ancho, alto, ..*old(self) },
                None => *old(self),
            }),
    {
        if let Some((ancho, alto)) = medida {
            self.ancho = ancho;
            self.alto = alto;
        }
    }
}

/// What the input worker does on a command.
pub enum PasoEntrada {
    /// Stop for good.
    Terminar,
    /// Open the input device anew where `reabrir`, then carry out the actions.
    Ejecutar { reabrir: bool, acciones: Vec<AccionEntrada> },
}

/// Takes a command of the viewer. `cortado` says whether the session is over:
/// then nothing is carried out any more. `secundaria` says whether the secondary
/// monitor is being shown.
pub fn paso_entrada(
    monitor: &mut MonitorEntrada,
    cmd: &CommandPayload,
    cortado: bool,
    secundaria: bool,
) -> (r: PasoEntrada)
    ensures
        match r {
            PasoEntrada::Terminar => cortado && *final(monitor) == *old(monitor),
            PasoEntrada::Ejecutar { reabrir, acciones } => {
                &&& !cortado
                &&& reabrir == (old(monitor).secundaria != secundaria)
                &&& vistas_acciones(acciones@) == acciones_de(*cmd, secundaria)
                &&& *final(monitor) == (MonitorEntrada { secundaria, ..*old(monitor) })
            },
        },
{
    if cortado {
        PasoEntrada::Terminar
    } else {
        let reabrir = monitor.seguir(secundaria);
        PasoEntrada::Ejecutar { reabrir, acciones: interpretar(cmd, secundaria) }
    }
}

// ---------------------------------------------------------------------------
// What is held down
// ---------------------------------------------------------------------------

/// The keys held down after the actions, from those in `antes`.
pub open spec fn sujetas(antes: Set<Tecla>, acciones: Seq<Accion>) -> Set<Tecla>
    decreases acciones.len(),
{
    if acciones.len() == 0 {
        antes
    } else {
        let s = sujetas(antes, acciones.drop_last());
        match acciones.last() {
            Accion::Pulsar { tecla, presionar } => if presionar {
                s.insert(tecla)
            } else {
                s.remove(tecla)
            },
            _ => s,
        }
    }
}

/// Pasting leaves no key of the shortcut and no modifier held down, whatever was
/// held down before, and touches no other key.
pub proof fn ley_pegado_suelta_todo(macos: bool, antes: Set<Tecla>)
    ensures
        sujetas(antes, pegado(macos)) == antes.remove(Tecla::Control).remove(Tecla::Meta).remove(
            Tecla::Shift,
        ).remove(Tecla::Unicode('v')),
{
    let p = pegado(macos);
    assert(p.drop_last().drop_last().drop_last().drop_last().drop_last().drop_last().drop_last().drop_last().drop_last()
        =~= seq![]);
    reveal_with_fuel(sujetas, 10);
    assert(sujetas(antes, p) =~= antes.remove(Tecla::Control).remove(Tecla::Meta).remove(Tecla::Shift).remove(
        Tecla::Unicode('v'),
    ));
}

/// A key that goes down and up again is not held down afterwards, and no other
/// key is touched; a typed character holds nothing down at all.
pub proof fn ley_bajar_y_subir(key: Seq<char>, antes: Set<Tecla>)
    ensures
        match tecla_de(key) {
            Some(Tecla::Unicode(_)) => sujetas(antes, al_bajar(key) + al_subir(key)) == antes,
            Some(t) => sujetas(antes, al_bajar(key) + al_subir(key)) == antes.remove(t),
            None => al_bajar(key) + al_subir(key) == Seq::<Accion>::empty(),
        },
{
    let s = al_bajar(key) + al_subir(key);
    reveal_with_fuel(sujetas, 3);
    match tecla_de(key) {
        Some(Tecla::Unicode(_)) => {
            assert(s.drop_last() =~= seq![]);
        },
        Some(t) => {
            assert(s.drop_last() =~= al_bajar(key));
            assert(al_bajar(key).drop_last() =~= seq![]);
            assert(sujetas(antes, s) =~= antes.remove(t));
        },
        None => {
            assert(s =~= seq![]);
        },
    }
}

/// A mouse button is released by the command that names it as the one that
/// pressed it did.
pub proof fn ley_boton_se_suelta(abajo: CommandPayload, arriba: CommandPayload, a: bool, b: bool)
    requires
        abajo.event@ == "mouse_down"@,
        arriba.event@ == "mouse_up"@,
        abajo.button@ == arriba.button@,
    ensures
        acciones_de(abajo, a) == seq![Accion::Boton { derecho: abajo.button@ == "right"@, presionar: true }],
        acciones_de(arriba, b) == seq![Accion::Boton { derecho: abajo.button@ == "right"@, presionar: false }],
{
    reveal_strlit("mouse_down");
    reveal_strlit("mouse_up");
    reveal_strlit("mouse_move");
    assert("mouse_down"@[6] == 'd' && "mouse_move"@[6] == 'm');
    assert("mouse_up"@.len() == 8 && "mouse_down"@.len() == 10 && "mouse_move"@.len() == 10);
}

// ---------------------------------------------------------------------------
// What every command is for
// ---------------------------------------------------------------------------

proof fn lemma_nombres_distintos()
    ensures
        "Enter"@.len() == 5 && "Enter"@[0] == 'E',
        "Backspace"@.len() == 9 && "Backspace"@[0] == 'B',
        "Tab"@.len() == 3 && "Tab"@[0] == 'T',
        "Escape"@.len() == 6,
        "Space"@.len() == 5 && "Space"@[0] == 'S' && "Space"@[1] == 'p',
        " "@.len() == 1 && " "@[0] == ' ',
        "ArrowUp"@.len() == 7 && "ArrowUp"@[0] == 'A',
        "ArrowDown"@.len() == 9 && "ArrowDown"@[0] == 'A' && "ArrowDown"@[5] == 'D',
        "ArrowLeft"@.len() == 9 && "ArrowLeft"@[0] == 'A' && "ArrowLeft"@[5] == 'L',
        "ArrowRight"@.len() == 10,
        "Meta"@.len() == 4,
        "Command"@.len() == 7 && "Command"@[0] == 'C' && "Command"@[2] == 'm',
        "Shift"@.len() == 5 && "Shift"@[0] == 'S' && "Shift"@[1] == 'h',
        "Control"@.len() == 7 && "Control"@[0] == 'C' && "Control"@[2] == 'n',
        "Alt"@.len() == 3 && "Alt"@[0] == 'A',
{
    reveal_strlit("Enter");
    reveal_strlit("Backspace");
    reveal_strlit("Tab");
    reveal_strlit("Escape");
    reveal_strlit("Space");
    reveal_strlit(" ");
    reveal_strlit("ArrowUp");
    reveal_strlit("ArrowDown");
    reveal_strlit("ArrowLeft");
    reveal_strlit("ArrowRight");
    reveal_strlit("Meta");
    reveal_strlit("Command");
    reveal_strlit("Shift");
    reveal_strlit("Control");
    reveal_strlit("Alt");
}

/// Every ASCII character stands for itself but the blank, which is the space
/// bar: pressed it is typed, released it does nothing.
pub proof fn ley_todo_caracter_se_escribe(c: char)
    requires
        c as int <= 127,
    ensures
        c != ' ' ==> {
            &&& tecla_de(seq![c]) == Some(Tecla::Unicode(c))
            &&& al_bajar(seq![c]) == seq![Accion::Escribir(c)]
            &&& al_subir(seq![c]) == Seq::<Accion>::empty()
        },
        c == ' ' ==> tecla_de(seq![c]) == Some(Tecla::Space),
{
    lemma_nombres_distintos();
    let s = seq![c];
    assert(s.len() == 1 && s[0] == c);
    if c == ' ' {
        assert(s =~= " "@);
    }
}

/// Each key has its names, and only those; a single ASCII character but the
/// blank stands for itself; no other text stands for a key.
pub proof fn ley_nombres_de_teclas(s: Seq<char>)
    ensures
        tecla_de(s) == Some(Tecla::Return) <==> s == "Enter"@,
        tecla_de(s) == Some(Tecla::Backspace) <==> s == "Backspace"@,
        tecla_de(s) == Some(Tecla::Tab) <==> s == "Tab"@,
        tecla_de(s) == Some(Tecla::Escape) <==> s == "Escape"@,
        tecla_de(s) == Some(Tecla::Space) <==> s == "Space"@ || s == " "@,
        tecla_de(s) == Some(Tecla::UpArrow) <==> s == "ArrowUp"@,
        tecla_de(s) == Some(Tecla::DownArrow) <==> s == "ArrowDown"@,
        tecla_de(s) == Some(Tecla::LeftArrow) <==> s == "ArrowLeft"@,
        tecla_de(s) == Some(Tecla::RightArrow) <==> s == "ArrowRight"@,
        tecla_de(s) == Some(Tecla::Meta) <==> s == "Meta"@ || s == "Command"@,
        tecla_de(s) == Some(Tecla::Shift) <==> s == "Shift"@,
        tecla_de(s) == Some(Tecla::Control) <==> s == "Control"@,
        tecla_de(s) == Some(Tecla::Alt) <==> s == "Alt"@,
        (tecla_de(s) matches Some(Tecla::Unicode(_))) <==> s.len() == 1 && s[0] as int <= 127 && s[0] != ' ',
        tecla_de(s) matches Some(Tecla::Unicode(c)) ==> s == seq![c],
{
    lemma_nombres_distintos();
    if s.len() == 1 {
        assert(s =~= seq![s[0]]);
        if s[0] == ' ' {
            assert(s =~= " "@);
        }
    }
}

/// A key that is no character goes down when it is pressed and up when it is
/// released; a text that stands for no key does nothing.
pub proof fn ley_teclas_con_nombre(s: Seq<char>, t: Tecla)
    ensures
        tecla_de(s) == Some(t) && !(t is Unicode) ==> {
            &&& al_bajar(s) == seq![Accion::Pulsar { tecla: t, presionar: true }]
            &&& al_subir(s) == seq![Accion::Pulsar { tecla: t, presionar: false }]
        },
        tecla_de(s) is None ==> al_bajar(s).len() == 0 && al_subir(s).len() == 0,
{
}

/// Every event of the viewer does its one thing to the devices, on every
/// command, and an event of another name does nothing.
pub proof fn ley_cada_evento(cmd: CommandPayload, secundaria: bool)
    ensures
        cmd.event@ == "mouse_move"@ ==> acciones_de(cmd, secundaria) == seq![Accion::MoverRaton(secundaria)],
        cmd.event@ == "mouse_down"@ ==> acciones_de(cmd, secundaria) == seq![
            Accion::Boton { derecho: cmd.button@ == "right"@, presionar: true },
        ],
        cmd.event@ == "mouse_up"@ ==> acciones_de(cmd, secundaria) == seq![
            Accion::Boton { derecho: cmd.button@ == "right"@, presionar: false },
        ],
        cmd.event@ == "scroll"@ ==> {
            let r = acciones_de(cmd, secundaria);
            let v = Accion::Rueda { cantidad: cmd.delta_y, vertical: true };
            let h = Accion::Rueda { cantidad: cmd.delta_x, vertical: false };
            &&& cmd.delta_y != 0 && cmd.delta_x != 0 ==> r == seq![v, h]
            &&& cmd.delta_y != 0 && cmd.delta_x == 0 ==> r == seq![v]
            &&& cmd.delta_y == 0 && cmd.delta_x != 0 ==> r == seq![h]
            &&& cmd.delta_y == 0 && cmd.delta_x == 0 ==> r == Seq::<Accion>::empty()
        },
        cmd.event@ == "key_down"@ ==> acciones_de(cmd, secundaria) == al_bajar(cmd.key@),
        cmd.event@ == "key_up"@ ==> acciones_de(cmd, secundaria) == al_subir(cmd.key@),
        cmd.event@ != "mouse_move"@ && cmd.event@ != "mouse_down"@ && cmd.event@ != "mouse_up"@ && cmd.event@
            != "scroll"@ && cmd.event@ != "key_down"@ && cmd.event@ != "key_up"@ && cmd.event@ != "clipboard_inject"@
            && cmd.event@ != "clipboard_sync"@ ==> acciones_de(cmd, secundaria) == Seq::<Accion>::empty(),
{
    reveal_strlit("mouse_move");
    reveal_strlit("mouse_down");
    reveal_strlit("mouse_up");
    reveal_strlit("scroll");
    reveal_strlit("key_down");
    reveal_strlit("key_up");
    assert("mouse_down"@[6] == 'd' && "mouse_move"@[6] == 'm');
    assert("mouse_up"@[0] == 'm' && "key_down"@[0] == 'k' && "scroll"@[0] == 's' && "key_up"@[0] == 'k');
    assert("mouse_move"@.len() == 10 && "mouse_down"@.len() == 10 && "mouse_up"@.len() == 8);
    assert("scroll"@.len() == 6 && "key_down"@.len() == 8 && "key_up"@.len() == 6);
    if cmd.event@ == "scroll"@ {
        let v = Accion::Rueda { cantidad: cmd.delta_y, vertical: true };
        let h = Accion::Rueda { cantidad: cmd.delta_x, vertical: false };
        assert(seq![v] + seq![h] =~= seq![v, h]);
        assert(seq![v] + seq![] =~= seq![v]);
        assert(seq![] + seq![h] =~= seq![h]);
    }
}

/// Pasting waits 150 ms, lets go of Control, Meta and Shift, and then strikes
/// `v` for 50 ms under Command on macOS and under Control elsewhere.
pub proof fn ley_pegado(macos: bool)
    ensures
        ({
            let p = pegado(macos);
            let m = if macos {
                Tecla::Meta
            } else {
                Tecla::Control
            };
            &&& p.len() == 9
            &&& p[0] == Accion::Pausa(150)
            &&& p[1] == Accion::Pulsar { tecla: Tecla::Control, presionar: false }
            &&& p[2] == Accion::Pulsar { tecla: Tecla::Meta, presionar: false }
            &&& p[3] == Accion::Pulsar { tecla: Tecla::Shift, presionar: false }
            &&& p[4] == Accion::Pulsar { tecla: m, presionar: true }
            &&& p[5] == Accion::Pulsar { tecla: Tecla::Unicode('v'), presionar: true }
            &&& p[6] == Accion::Pausa(50)
            &&& p[7] == Accion::Pulsar { tecla: Tecla::Unicode('v'), presionar: false }
            &&& p[8] == Accion::Pulsar { tecla: m, presionar: false }
        }),
        sujetas(Set::empty(), pegado(macos).take(6)) == set![
            if macos { Tecla::Meta } else { Tecla::Control },
            Tecla::Unicode('v'),
        ],
{
    let p = pegado(macos);
    let q = p.take(6);
    reveal_with_fuel(sujetas, 7);
    assert(q.drop_last().drop_last().drop_last().drop_last().drop_last().drop_last() =~= seq![]);
    assert(sujetas(Set::empty(), q) =~= set![
        if macos { Tecla::Meta } else { Tecla::Control },
        Tecla::Unicode('v'),
    ]);
}

/// The actions of the contracts are read one by one, each with all it holds.
pub proof fn ley_vistas_de_acciones(v: Seq<AccionEntrada>, texto: String, pegar: bool, a: AccionEntrada)
    ensures
        vistas_acciones(v).len() == v.len(),
        forall|i: int| 0 <= i < v.len() ==> #[trigger] vistas_acciones(v)[i] == v[i]@,
        (AccionEntrada::Copiar { texto, pegar })@ == (Accion::Copiar { texto: texto@, pegar }),
        a matches AccionEntrada::MoverRaton { desplazada } ==> a@ == Accion::MoverRaton(desplazada),
        a matches AccionEntrada::Boton { derecho, presionar } ==> a@ == (Accion::Boton { derecho, presionar }),
        a matches AccionEntrada::Rueda { cantidad, vertical } ==> a@ == (Accion::Rueda { cantidad, vertical }),
        a matches AccionEntrada::Escribir { caracter } ==> a@ == Accion::Escribir(caracter),
        a matches AccionEntrada::Pulsar { tecla, presionar } ==> a@ == (Accion::Pulsar { tecla, presionar }),
        a matches AccionEntrada::Pausa { ms } ==> a@ == Accion::Pausa(ms),
{
}

} // verus!
