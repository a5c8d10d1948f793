//! Splicing of RTP streams.
//!
//! Every restart of the encoder opens a new RTP stream, with its own
//! synchronisation source, sequence numbers and timestamps. The viewer must see
//! one stream only, so each packet is rewritten to continue the first one.

use vstd::prelude::*;

verus! {

/// Bytes of the fixed RTP header.
pub const CABECERA: usize = 12;

/// Timestamp step inserted where one source takes over from another.
pub const SALTO_TS: u32 = 3000;

/// Bytes that the receiver of datagrams reserves for one packet.
pub const TAMANO_BUFFER: usize = 2048;

// ---------------------------------------------------------------------------
// Packets
// ---------------------------------------------------------------------------

/// The packet holds the fixed header, so it can be rewritten.
pub open spec fn completo(p: Seq<u8>) -> bool {
    p.len() >= CABECERA
}

/// The number that bytes `[desde, hasta)` write in network order.
pub open spec fn numero(p: Seq<u8>, desde: int, hasta: int) -> nat
    decreases hasta - desde,
{
    if hasta <= desde {
        0
    } else {
        256 * numero(p, desde, hasta - 1) + p[hasta - 1] as nat
    }
}

/// Sequence number of a packet.
pub open spec fn seq_de(p: Seq<u8>) -> nat {
    numero(p, 2, 4)
}

/// Timestamp of a packet.
pub open spec fn ts_de(p: Seq<u8>) -> nat {
    numero(p, 4, 8)
}

/// Synchronisation source of a packet.
pub open spec fn ssrc_de(p: Seq<u8>) -> nat {
    numero(p, 8, 12)
}

/// `q` is `p` with the given sequence number, timestamp and source in its
/// header and every other byte unchanged.
pub open spec fn reescrito(p: Seq<u8>, q: Seq<u8>, seq: int, ts: int, ssrc: int) -> bool {
    &&& q.len() == p.len()
    &&& forall|i: int| 0 <= i < p.len() && !(2 <= i < CABECERA) ==> q[i] == p[i]
    &&& seq_de(q) == seq
    &&& ts_de(q) == ts
    &&& ssrc_de(q) == ssrc
}

proof fn lemma_campos(p: Seq<u8>)
    ensures
        seq_de(p) == p[2] * 256 + p[3],
        seq_de(p) < 0x1_0000,
        ts_de(p) == p[4] * 0x100_0000 + p[5] * 0x1_0000 + p[6] * 256 + p[7],
        ts_de(p) < 0x1_0000_0000,
        ssrc_de(p) == p[8] * 0x100_0000 + p[9] * 0x1_0000 + p[10] * 256 + p[11],
        ssrc_de(p) < 0x1_0000_0000,
{
    reveal_with_fuel(numero, 5);
}

proof fn lemma_bytes16(a: u8, b: u8, c: u8, d: u8)
    requires
        a * 256 + b == c * 256 + d,
    ensures
        a == c,
        b == d,
{
}

proof fn lemma_bytes32(a: u8, b: u8, c: u8, d: u8, e: u8, f: u8, g: u8, h: u8)
    requires
        a * 0x100_0000 + b * 0x1_0000 + c * 256 + d == e * 0x100_0000 + f * 0x1_0000 + g * 256 + h,
    ensures
        a == e,
        b == f,
        c == g,
        d == h,
{
}

/// The header fields settle every byte of a rewritten packet.
pub proof fn lemma_reescrito_unico(p: Seq<u8>, q: Seq<u8>, r: Seq<u8>, seq: int, ts: int, ssrc: int)
    requires
        completo(p),
        reescrito(p, q, seq, ts, ssrc),
        reescrito(p, r, seq, ts, ssrc),
    ensures
        q == r,
{
    assert forall|i: int| 0 <= i < p.len() implies q[i] == r[i] by {
        lemma_campos(q);
        lemma_campos(r);
        lemma_bytes16(q[2], q[3], r[2], r[3]);
        lemma_bytes32(q[4], q[5], q[6], q[7], r[4], r[5], r[6], r[7]);
        lemma_bytes32(q[8], q[9], q[10], q[11], r[8], r[9], r[10], r[11]);
    }
    assert(q =~= r);
}

// ---------------------------------------------------------------------------
// The rewriter
// ---------------------------------------------------------------------------

/// What the rewriter knows of the streams it has seen: the very first source,
/// the source being relayed, what is added to its numbers, and the numbers that
/// went out last.
pub struct EstadoRtp {
    pub fuentes: Option<(int, int)>,
    pub desfase_seq: int,
    pub desfase_ts: int,
    pub ultima_seq: int,
    pub ultimo_ts: int,
}

/// Before any packet.
pub open spec fn inicial() -> EstadoRtp {
    EstadoRtp { fuentes: None, desfase_seq: 0, desfase_ts: 0, ultima_seq: 0, ultimo_ts: 0 }
}

/// The source being relayed.
pub open spec fn actual_de(e: EstadoRtp) -> int
    recommends
        e.fuentes is Some,
{
    match e.fuentes {
        Some((_, actual)) => actual,
        None => 0,
    }
}

/// The packet comes from another source than the one being relayed.
pub open spec fn cambia_fuente(e: EstadoRtp, p: Seq<u8>) -> bool {
    e.fuentes matches Some((_, actual)) && ssrc_de(p) != actual
}

/// The rewriter after a complete packet with the given header fields. A change
/// of source moves the offsets so that this packet follows the last one sent.
pub open spec fn tras_campos(e: EstadoRtp, seq: int, ts: int, ssrc: int) -> EstadoRtp {
    let cambia = e.fuentes matches Some((_, actual)) && ssrc != actual;
    let ds = if cambia {
        (e.ultima_seq + 1 - seq) % 0x1_0000
    } else {
        e.desfase_seq
    };
    let dt = if cambia {
        (e.ultimo_ts + SALTO_TS - ts) % 0x1_0000_0000
    } else {
        e.desfase_ts
    };
    EstadoRtp {
        fuentes: match e.fuentes {
            Some((primera, _)) => Some((primera, ssrc)),
            None => Some((ssrc, ssrc)),
        },
        desfase_seq: ds,
        desfase_ts: dt,
        ultima_seq: (seq + ds) % 0x1_0000,
        ultimo_ts: (ts + dt) % 0x1_0000_0000,
    }
}

/// The rewriter after the complete packet `p`.
pub open spec fn tras(e: EstadoRtp, p: Seq<u8>) -> EstadoRtp {
    tras_campos(e, seq_de(p) as int, ts_de(p) as int, ssrc_de(p) as int)
}

/// State after any datagram: only complete packets count.
pub open spec fn siguiente(e: EstadoRtp, p: Seq<u8>) -> EstadoRtp {
    if completo(p) {
        tras(e, p)
    } else {
        e
    }
}

/// `q` is what goes out for the datagram `p`: nothing for an empty one, a short
/// one as it came, a complete one renumbered and under the first source.
pub open spec fn emite(e: EstadoRtp, p: Seq<u8>, q: Option<Seq<u8>>) -> bool {
    if completo(p) {
        let t = tras(e, p);
        &&& q is Some
        &&& t.fuentes matches Some((primera, _))
        &&& reescrito(p, q->0, t.ultima_seq, t.ultimo_ts, primera)
    } else if p.len() > 0 {
        q == Some(p)
    } else {
        q is None
    }
}

/// Rewrites the packets of successive RTP streams into one.
pub struct ReescritorRtp {
    current_ssrc: u32,
    first_ssrc_ever: u32,
    seq_offset: u16,
    ts_offset: u32,
    last_seq_out: u16,
    last_ts_out: u32,
    is_first_packet: bool,
}

impl View for ReescritorRtp {
    type V = EstadoRtp;

    closed spec fn view(&self) -> EstadoRtp {
        EstadoRtp {
            fuentes: if self.is_first_packet {
                None
            } else {
                Some((self.first_ssrc_ever as int, self.current_ssrc as int))
            },
            desfase_seq: self.seq_offset as int,
            desfase_ts: self.ts_offset as int,
            ultima_seq: self.last_seq_out as int,
            ultimo_ts: self.last_ts_out as int,
        }
    }
}

fn leer_u16(a: u8, b: u8) -> (r: u16)
    ensures
        r == a * 256 + b,
{
    a as u16 * 256 + b as u16
}

fn leer_u32(a: u8, b: u8, c: u8, d: u8) -> (r: u32)
    ensures
        r == a * 0x100_0000 + b * 0x1_0000 + c * 256 + d,
{
    a as u32 * 0x100_0000 + b as u32 * 0x1_0000 + c as u32 * 256 + d as u32
}

fn poner_u16(datos: &mut Vec<u8>, i: usize, v: u16)
    requires
        i + 2 <= old(datos).len(),
    ensures
        final(datos).len() == old(datos).len(),
        forall|j: int| 0 <= j < old(datos).len() && !(i <= j < i + 2) ==> final(datos)@[j] == old(datos)@[j],
        final(datos)@[i as int] * 256 + final(datos)@[i + 1] == v,
{
    datos.set(i, (v / 256) as u8);
    datos.set(i + 1, (v % 256) as u8);
}

fn poner_u32(datos: &mut Vec<u8>, i: usize, v: u32)
    requires
        i + 4 <= old(datos).len(),
    ensures
        final(datos).len() == old(datos).len(),
        forall|j: int| 0 <= j < old(datos).len() && !(i <= j < i + 4) ==> final(datos)@[j] == old(datos)@[j],
        final(datos)@[i as int] * 0x100_0000 + final(datos)@[i + 1] * 0x1_0000 + final(datos)@[i + 2] * 256
            + final(datos)@[i + 3] == v,
{
    datos.set(i, (v / 0x100_0000) as u8);
    datos.set(i + 1, (v / 0x1_0000 % 256) as u8);
    datos.set(i + 2, (v / 256 % 256) as u8);
    datos.set(i + 3, (v % 256) as u8);
}

fn poner_cabecera(datos: &mut Vec<u8>, seq: u16, ts: u32, ssrc: u32)
    requires
        completo(old(datos)@),
    ensures
        reescrito(old(datos)@, final(datos)@, seq as int, ts as int, ssrc as int),
{
    poner_u16(datos, 2, seq);
    poner_u32(datos, 4, ts);
    poner_u32(datos, 8, ssrc);
    proof {
        lemma_campos(datos@);
    }
}

fn leer_cabecera(datos: &Vec<u8>) -> (r: (u16, u32, u32))
    requires
        completo(datos@),
    ensures
        r.0 == seq_de(datos@),
        r.1 == ts_de(datos@),
        r.2 == ssrc_de(datos@),
{
    proof {
        lemma_campos(datos@);
    }
    (
        leer_u16(datos[2], datos[3]),
        leer_u32(datos[4], datos[5], datos[6], datos[7]),
        leer_u32(datos[8], datos[9], datos[10], datos[11]),
    )
}

impl ReescritorRtp {
    pub fn new() -> (r: Self)
        ensures
            r@ == inicial(),
    {
        ReescritorRtp {
            current_ssrc: 0,
            first_ssrc_ever: 0,
            seq_offset: 0,
            ts_offset: 0,
            last_seq_out: 0,
            last_ts_out: 0,
            is_first_packet: true,
        }
    }

    fn avanzar(&mut self, seq_in: u16, ts_in: u32, ssrc_in: u32)
        ensures
            final(self)@ == tras_campos(old(self)@, seq_in as int, ts_in as int, ssrc_in as int),
            !final(self).is_first_packet,
    {
        if self.is_first_packet {
            self.first_ssrc_ever = ssrc_in;
            self.current_ssrc = ssrc_in;
            self.is_first_packet = false;
        } else if ssrc_in != self.current_ssrc {
            self.seq_offset = self.last_seq_out.wrapping_sub(seq_in).wrapping_add(1);
            self.ts_offset = self.last_ts_out.wrapping_sub(ts_in).wrapping_add(SALTO_TS);
            self.current_ssrc = ssrc_in;
        }
        self.last_seq_out = seq_in.wrapping_add(self.seq_offset);
        self.last_ts_out = ts_in.wrapping_add(self.ts_offset);
    }

    /// Takes one datagram from the encoder and gives what is sent to the viewer.
    pub fn procesar(&mut self, datagrama: &[u8]) -> (r: Option<Vec<u8>>)
        ensures
            final(self)@ == siguiente(old(self)@, datagrama@),
            emite(
                old(self)@,
                datagrama@,
                match r {
                    Some(v) => Some(v@),
                    None => None,
                },
            ),
            r is None <==> datagrama@.len() == 0,
            r matches Some(v) ==> {
                &&& v@.len() == datagrama@.len()
                &&& datagrama@.len() < 12 ==> v@ == datagrama@ && final(self)@ == old(self)@
                &&& forall|i: int| 0 <= i < v@.len() && (i < 2 || i >= 12) ==> v@[i] == datagrama@[i]
            },
    {
        let n: usize = datagrama.len();
        if n == 0 {
            return None;
        }
        let mut datos: Vec<u8> = Vec::new();
        datos.extend_from_slice(datagrama);
        assert(datos@ =~= datagrama@);
        if n < CABECERA {
            return Some(datos);
        }
        let (seq_in, ts_in, ssrc_in) = leer_cabecera(&datos);
        self.avanzar(seq_in, ts_in, ssrc_in);
        poner_cabecera(&mut datos, self.last_seq_out, self.last_ts_out, self.first_ssrc_ever);
        Some(datos)
    }
}

/// What happens to the relay of packets.
#[derive(Clone, Copy, Debug, PartialEq, Eq, Structural)]
pub enum EventoReenvio {
    /// The session is over.
    FinDeSesion,
    /// No datagram could be read.
    LecturaFallida,
    /// A datagram has come that leaves no packet.
    SinPaquete,
    /// A packet has left.
    Enviado,
    /// A packet could not leave.
    EnvioFallido,
}

/// Whether the relay of packets goes on: until the session is over, or a
/// datagram cannot be read, or a packet cannot leave.
pub fn sigue_reenvio(evento: EventoReenvio) -> (r: bool)
    ensures
        r <==> (evento is SinPaquete || evento is Enviado),
{
    match evento {
        EventoReenvio::SinPaquete | EventoReenvio::Enviado => true,
        _ => false,
    }
}

// ---------------------------------------------------------------------------
// Whole streams
// ---------------------------------------------------------------------------

/// The rewriter after the datagrams `ps`, in order.
pub open spec fn estado_tras(ps: Seq<Seq<u8>>) -> EstadoRtp
    decreases ps.len(),
{
    if ps.len() == 0 {
        inicial()
    } else {
        siguiente(estado_tras(ps.drop_last()), ps.last())
    }
}

/// `qs` is what a new rewriter sends for the datagrams `ps`.
pub open spec fn flujo(ps: Seq<Seq<u8>>, qs: Seq<Option<Seq<u8>>>) -> bool {
    &&& qs.len() == ps.len()
    &&& forall|i: int| 0 <= i < ps.len() ==> emite(estado_tras(ps.take(i)), ps[i], #[trigger] qs[i])
}

proof fn lemma_un_paso(ps: Seq<Seq<u8>>, i: int)
    requires
        0 <= i < ps.len(),
    ensures
        estado_tras(ps.take(i + 1)) == siguiente(estado_tras(ps.take(i)), ps[i]),
{
    assert(ps.take(i + 1).drop_last() =~= ps.take(i));
}

/// The rewritten packet differs from the incoming one in its sequence number,
/// timestamp and source only: length, payload and the rest of the header stay.
pub proof fn ley_carga_intacta(e: EstadoRtp, p: Seq<u8>, q: Option<Seq<u8>>)
    requires
        emite(e, p, q),
        p.len() > 0,
    ensures
        q is Some,
        q->0.len() == p.len(),
        p.len() >= 12 ==> q->0.take(2) == p.take(2) && q->0.skip(12) == p.skip(12),
        p.len() < 12 ==> q->0 == p,
{
    if completo(p) {
        assert(q->0.take(2) =~= p.take(2));
        assert(q->0.skip(12) =~= p.skip(12));
    }
}

/// Where another source takes over, its first packet leaves with the sequence
/// number after the last one sent and one timestamp step later.
pub proof fn ley_relevo_continuo(e: EstadoRtp, p: Seq<u8>, q: Option<Seq<u8>>)
    requires
        p.len() >= 12,
        cambia_fuente(e, p),
        emite(e, p, q),
    ensures
        seq_de(q->0) == (e.ultima_seq + 1) % 0x1_0000,
        ts_de(q->0) == (e.ultimo_ts + 3000) % 0x1_0000_0000,
{
}

proof fn lemma_mod16(a: int, b: int, d: int)
    ensures
        ((b + d) % 0x1_0000 - (a + d) % 0x1_0000) % 0x1_0000 == (b - a) % 0x1_0000,
        b == (a + 1) % 0x1_0000 ==> (b + d) % 0x1_0000 == ((a + d) % 0x1_0000 + 1) % 0x1_0000,
{
}

proof fn lemma_mod32(a: int, b: int, d: int)
    ensures
        ((b + d) % 0x1_0000_0000 - (a + d) % 0x1_0000_0000) % 0x1_0000_0000 == (b - a) % 0x1_0000_0000,
{
}

/// While one source is relayed, the distance between the sequence numbers and
/// between the timestamps of two packets in a row goes out as it came in.
pub proof fn ley_distancias_intactas(
    e: EstadoRtp,
    p1: Seq<u8>,
    q1: Option<Seq<u8>>,
    p2: Seq<u8>,
    q2: Option<Seq<u8>>,
)
    requires
        p1.len() >= 12,
        p2.len() >= 12,
        ssrc_de(p1) == ssrc_de(p2),
        emite(e, p1, q1),
        emite(siguiente(e, p1), p2, q2),
    ensures
        (seq_de(q2->0) - seq_de(q1->0)) % 0x1_0000 == (seq_de(p2) - seq_de(p1)) % 0x1_0000,
        (ts_de(q2->0) - ts_de(q1->0)) % 0x1_0000_0000 == (ts_de(p2) - ts_de(p1)) % 0x1_0000_0000,
{
    let t = tras(e, p1);
    lemma_mod16(seq_de(p1) as int, seq_de(p2) as int, t.desfase_seq);
    lemma_mod32(ts_de(p1) as int, ts_de(p2) as int, t.desfase_ts);
}

proof fn lemma_primera_fuente(ps: Seq<Seq<u8>>, k: int)
    requires
        0 <= k < ps.len(),
        completo(ps[k]),
        forall|j: int| 0 <= j < k ==> !completo(#[trigger] ps[j]),
    ensures
        estado_tras(ps).fuentes matches Some((primera, _)) && primera == ssrc_de(ps[k]),
    decreases ps.len(),
{
    if k == ps.len() - 1 {
        lemma_sin_completos(ps.drop_last());
    } else {
        lemma_primera_fuente(ps.drop_last(), k);
    }
}

proof fn lemma_sin_completos(ps: Seq<Seq<u8>>)
    requires
        forall|j: int| 0 <= j < ps.len() ==> !completo(#[trigger] ps[j]),
    ensures
        estado_tras(ps) == inicial(),
    decreases ps.len(),
{
    if ps.len() > 0 {
        assert(!completo(ps[ps.len() - 1]));
        assert forall|j: int| 0 <= j < ps.drop_last().len() implies !completo(#[trigger] ps.drop_last()[j]) by {
            assert(!completo(ps[j]));
        }
        lemma_sin_completos(ps.drop_last());
    }
}

/// Every complete packet that goes out carries the source of the first complete
/// packet that ever came in, whatever sources follow.
pub proof fn ley_fuente_unica(ps: Seq<Seq<u8>>, qs: Seq<Option<Seq<u8>>>, k: int, i: int)
    requires
        flujo(ps, qs),
        0 <= k <= i < ps.len(),
        ps[k].len() >= 12,
        forall|j: int| 0 <= j < k ==> (#[trigger] ps[j]).len() < 12,
        ps[i].len() >= 12,
    ensures
        qs[i] is Some,
        ssrc_de(qs[i]->0) == ssrc_de(ps[k]),
{
    assert(emite(estado_tras(ps.take(i)), ps[i], qs[i]));
    lemma_un_paso(ps, i);
    assert(completo(ps.take(i + 1)[k]));
    lemma_primera_fuente(ps.take(i + 1), k);
}

/// Sequence numbers leave without a gap: when every source numbers its own
/// packets one by one, so does the spliced stream, across every take-over.
pub proof fn ley_secuencia_sin_huecos(ps: Seq<Seq<u8>>, qs: Seq<Option<Seq<u8>>>, i: int)
    requires
        flujo(ps, qs),
        forall|j: int| 0 <= j < ps.len() ==> (#[trigger] ps[j]).len() >= 12,
        0 <= i,
        i + 1 < ps.len(),
        ssrc_de(ps[i]) == ssrc_de(ps[i + 1]) ==> seq_de(ps[i + 1]) == (seq_de(ps[i]) + 1) % 0x1_0000,
    ensures
        seq_de(qs[i + 1]->0) == (seq_de(qs[i]->0) + 1) % 0x1_0000,
{
    assert(emite(estado_tras(ps.take(i)), ps[i], qs[i]));
    assert(emite(estado_tras(ps.take(i + 1)), ps[i + 1], qs[i + 1]));
    assert(completo(ps[i]) && completo(ps[i + 1]));
    lemma_un_paso(ps, i);
    let t = tras(estado_tras(ps.take(i)), ps[i]);
    if cambia_fuente(t, ps[i + 1]) {
        ley_relevo_continuo(t, ps[i + 1], qs[i + 1]);
    } else {
        lemma_mod16(seq_de(ps[i]) as int, seq_de(ps[i + 1]) as int, t.desfase_seq);
    }
}

proof fn lemma_sin_relevo(ps: Seq<Seq<u8>>)
    requires
        forall|i: int, j: int|
            0 <= i < ps.len() && 0 <= j < ps.len() && completo(#[trigger] ps[i]) && completo(
                #[trigger] ps[j],
            ) ==> ssrc_de(ps[i]) == ssrc_de(ps[j]),
    ensures
        estado_tras(ps).desfase_seq == 0,
        estado_tras(ps).desfase_ts == 0,
        estado_tras(ps).fuentes matches Some((primera, actual)) ==> {
            &&& primera == actual
            &&& exists|k: int| 0 <= k < ps.len() && completo(#[trigger] ps[k]) && ssrc_de(ps[k]) == actual
        },
    decreases ps.len(),
{
    if ps.len() > 0 {
        let previos = ps.drop_last();
        lemma_sin_relevo(previos);
        let e = estado_tras(previos);
        assert(previos =~= ps.take(ps.len() - 1));
        if e.fuentes is Some {
            let k = choose|k: int|
                0 <= k < previos.len() && completo(#[trigger] previos[k]) && ssrc_de(previos[k])
                    == actual_de(e);
            assert(completo(ps[k]));
        }
        assert(ps[ps.len() - 1] == ps.last());
    }
}

/// Until a second source appears, every packet leaves exactly as it came.
pub proof fn ley_primera_fuente_intacta(ps: Seq<Seq<u8>>, qs: Seq<Option<Seq<u8>>>, i: int)
    requires
        flujo(ps, qs),
        0 <= i < ps.len(),
        ps[i].len() > 0,
        forall|a: int, b: int|
            0 <= a <= i && 0 <= b <= i && (#[trigger] ps[a]).len() >= 12 && (#[trigger] ps[b]).len() >= 12 ==> ssrc_de(
                ps[a],
            ) == ssrc_de(ps[b]),
    ensures
        qs[i] == Some(ps[i]),
{
    assert(emite(estado_tras(ps.take(i)), ps[i], qs[i]));
    if completo(ps[i]) {
        lemma_un_paso(ps, i);
        lemma_sin_relevo(ps.take(i));
        lemma_sin_relevo(ps.take(i + 1));
        lemma_campos(ps[i]);
        let e = estado_tras(ps.take(i));
        if e.fuentes is Some {
            let previos = ps.take(i);
            let k = choose|k: int|
                0 <= k < previos.len() && completo(#[trigger] previos[k]) && ssrc_de(previos[k])
                    == actual_de(e);
            assert(completo(ps[k]));
        }
        assert(!cambia_fuente(e, ps[i]));
        let t = tras(e, ps[i]);
        assert(reescrito(ps[i], ps[i], t.ultima_seq, t.ultimo_ts, ssrc_de(ps[i]) as int));
        lemma_reescrito_unico(ps[i], ps[i], qs[i]->0, t.ultima_seq, t.ultimo_ts, ssrc_de(ps[i]) as int);
    }
}

/// The fields of the header stand where RTP puts them, in network order.
pub proof fn ley_campos(p: Seq<u8>)
    requires
        p.len() >= 12,
    ensures
        seq_de(p) == p[2] * 256 + p[3],
        ts_de(p) == p[4] * 0x100_0000 + p[5] * 0x1_0000 + p[6] * 256 + p[7],
        ssrc_de(p) == p[8] * 0x100_0000 + p[9] * 0x1_0000 + p[10] * 256 + p[11],
{
    lemma_campos(p);
}

/// Every datagram of twelve bytes or more is rewritten, whatever its length, and
/// none that is shorter.
pub proof fn ley_todo_paquete(e: EstadoRtp, p: Seq<u8>, q: Option<Seq<u8>>)
    requires
        emite(e, p, q),
    ensures
        completo(p) <==> p.len() >= 12,
        q is None <==> p.len() == 0,
        p.len() < 12 ==> siguiente(e, p) == e,
        p.len() >= 12 ==> {
            let t = siguiente(e, p);
            &&& t.fuentes matches Some((primera, actual))
            &&& actual == ssrc_de(p)
            &&& ssrc_de(q->0) == primera
            &&& e.fuentes matches Some((antes, _)) ==> primera == antes
            &&& e.fuentes is None ==> primera == ssrc_de(p)
            &&& t.ultima_seq == seq_de(q->0)
            &&& t.ultimo_ts == ts_de(q->0)
        },
{
}

proof fn lemma_cortos(ps: Seq<Seq<u8>>, i: int, j: int)
    requires
        0 <= i <= j <= ps.len(),
        forall|k: int| i <= k < j ==> (#[trigger] ps[k]).len() < 12,
    ensures
        estado_tras(ps.take(j)) == estado_tras(ps.take(i)),
    decreases j - i,
{
    if i < j {
        lemma_cortos(ps, i, j - 1);
        lemma_un_paso(ps, j - 1);
        assert(ps[j - 1].len() < 12);
    }
}

/// The spliced stream is continuous. Take two packets with nothing but shorter
/// datagrams between them. From one source, they leave as far apart, in sequence
/// number and timestamp, as they came. Where another source takes over, the
/// second one leaves with the next sequence number and 3000 ticks later, whatever
/// numbers it came with.
pub proof fn ley_empalme(ps: Seq<Seq<u8>>, qs: Seq<Option<Seq<u8>>>, i: int, j: int)
    requires
        flujo(ps, qs),
        0 <= i < j < ps.len(),
        ps[i].len() >= 12,
        ps[j].len() >= 12,
        forall|k: int| i < k < j ==> (#[trigger] ps[k]).len() < 12,
    ensures
        qs[i] is Some,
        qs[j] is Some,
        ssrc_de(ps[i]) != ssrc_de(ps[j]) ==> {
            &&& seq_de(qs[j]->0) == (seq_de(qs[i]->0) + 1) % 0x1_0000
            &&& ts_de(qs[j]->0) == (ts_de(qs[i]->0) + 3000) % 0x1_0000_0000
        },
        ssrc_de(ps[i]) == ssrc_de(ps[j]) ==> {
            &&& (seq_de(qs[j]->0) - seq_de(qs[i]->0)) % 0x1_0000 == (seq_de(ps[j]) - seq_de(ps[i])) % 0x1_0000
            &&& (ts_de(qs[j]->0) - ts_de(qs[i]->0)) % 0x1_0000_0000 == (ts_de(ps[j]) - ts_de(ps[i]))
                % 0x1_0000_0000
        },
{
    let e = estado_tras(ps.take(i));
    assert(emite(e, ps[i], qs[i]));
    assert(emite(estado_tras(ps.take(j)), ps[j], qs[j]));
    lemma_un_paso(ps, i);
    lemma_cortos(ps, i + 1, j);
    let t = siguiente(e, ps[i]);
    assert(estado_tras(ps.take(j)) == t);
    if ssrc_de(ps[i]) != ssrc_de(ps[j]) {
        ley_relevo_continuo(t, ps[j], qs[j]);
    } else {
        ley_distancias_intactas(e, ps[i], qs[i], ps[j], qs[j]);
    }
}

/// What is sent for a stream is settled by it: two rewriters that take the same
/// datagrams send the same bytes.
pub proof fn ley_flujo_unico(ps: Seq<Seq<u8>>, qs: Seq<Option<Seq<u8>>>, rs: Seq<Option<Seq<u8>>>)
    requires
        flujo(ps, qs),
        flujo(ps, rs),
    ensures
        qs == rs,
{
    assert forall|i: int| 0 <= i < ps.len() implies qs[i] == rs[i] by {
        let e = estado_tras(ps.take(i));
        assert(emite(e, ps[i], qs[i]));
        assert(emite(e, ps[i], rs[i]));
        if ps[i].len() >= 12 {
            let t = tras(e, ps[i]);
            let primera = match t.fuentes {
                Some((f, _)) => f,
                None => 0,
            };
            lemma_reescrito_unico(ps[i], qs[i]->0, rs[i]->0, t.ultima_seq, t.ultimo_ts, primera);
        }
    }
    assert(qs =~= rs);
}

/// The buffer that a datagram is read into holds 2048 bytes.
pub proof fn ley_tamano_buffer()
    ensures
        TAMANO_BUFFER == 2048,
{
}

} // verus!
