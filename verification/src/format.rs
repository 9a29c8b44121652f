//! Output format selection and rendering of captured bytes.

use vstd::prelude::*;

verus! {

/// How captured bytes are rendered to the output sink.
#[derive(Clone, Copy, Debug, PartialEq, Eq, Structural)]
pub enum OutputFormat {
    /// The captured bytes, verbatim.
    Raw,
    /// Two uppercase hex digits per byte, space separated, newline terminated.
    Hexadecimal,
    /// Unsigned decimal value per byte, space separated, newline terminated.
    Decimal,
}

/// Pick the effective output format: an explicit request wins; otherwise
/// an interactive destination gets hexadecimal and any other gets raw bytes.
pub fn resolve_format(explicit: Option<OutputFormat>, destination_is_interactive: bool) -> (r: OutputFormat)
    ensures
        explicit matches Some(f) ==> r == f,
        explicit is None && destination_is_interactive ==> r == OutputFormat::Hexadecimal,
        explicit is None && !destination_is_interactive ==> r == OutputFormat::Raw,
{
    match explicit {
        Some(f) => f,
        None => {
            if destination_is_interactive {
                OutputFormat::Hexadecimal
            } else {
                OutputFormat::Raw
            }
        },
    }
}

/// The byte that separates rendered values: an ASCII space.
pub const SEPARATOR: u8 = 0x20;

/// The byte that terminates a rendered line: an ASCII line feed.
pub const NEWLINE: u8 = 0x0A;

/// The ASCII byte for one hexadecimal digit, uppercase.
pub open spec fn hex_digit(v: u8) -> u8
    recommends
        v < 16,
{
    if v < 10 {
        (0x30 + v) as u8
    } else {
        (0x37 + v) as u8
    }
}

/// Two uppercase hexadecimal digits for one byte.
pub open spec fn hex_token(b: u8) -> Seq<u8> {
    seq![hex_digit(b / 16), hex_digit(b % 16)]
}

/// The unsigned decimal digits for one byte, without leading zeros.
pub open spec fn dec_token(b: u8) -> Seq<u8> {
    if b < 10 {
        seq![(0x30 + b) as u8]
    } else if b < 100 {
        seq![(0x30 + b / 10) as u8, (0x30 + b % 10) as u8]
    } else {
        seq![(0x30 + b / 100) as u8, (0x30 + (b / 10) % 10) as u8, (0x30 + b % 10) as u8]
    }
}

/// The rendering of one byte in a textual format.
pub open spec fn byte_token(b: u8, fmt: OutputFormat) -> Seq<u8>
    recommends
        fmt != OutputFormat::Raw,
{
    match fmt {
        OutputFormat::Raw => seq![],
        OutputFormat::Hexadecimal => hex_token(b),
        OutputFormat::Decimal => dec_token(b),
    }
}

/// All byte tokens, joined by single separators, without the final newline.
pub open spec fn joined_tokens(bytes: Seq<u8>, fmt: OutputFormat) -> Seq<u8>
    decreases bytes.len(),
{
    if bytes.len() == 0 {
        seq![]
    } else if bytes.len() == 1 {
        byte_token(bytes[0], fmt)
    } else {
        joined_tokens(bytes.drop_last(), fmt) + seq![SEPARATOR] + byte_token(bytes.last(), fmt)
    }
}

/// What one capture renders to: the bytes themselves for `Raw`, or the
/// separator-joined tokens terminated by one newline for the textual formats.
pub open spec fn rendered_output(bytes: Seq<u8>, fmt: OutputFormat) -> Seq<u8> {
    if fmt == OutputFormat::Raw {
        bytes
    } else {
        joined_tokens(bytes, fmt) + seq![NEWLINE]
    }
}

/// Append the rendering of one byte in a textual format.
fn push_token(out: &mut Vec<u8>, b: u8, fmt: OutputFormat)
    requires
        fmt != OutputFormat::Raw,
    ensures
        final(out)@ == old(out)@ + byte_token(b, fmt),
{
    match fmt {
        OutputFormat::Raw => {
        },
        OutputFormat::Hexadecimal => {
            let hi = b / 16;
            let lo = b % 16;
            out.push(if hi < 10 { 0x30 + hi } else { 0x37 + hi });
            out.push(if lo < 10 { 0x30 + lo } else { 0x37 + lo });
            assert(out@ =~= old(out)@ + hex_token(b));
        },
        OutputFormat::Decimal => {
            if b < 10 {
                out.push(0x30 + b);
            } else if b < 100 {
                out.push(0x30 + b / 10);
                out.push(0x30 + b % 10);
            } else {
                out.push(0x30 + b / 100);
                out.push(0x30 + (b / 10) % 10);
                out.push(0x30 + b % 10);
            }
            assert(out@ =~= old(out)@ + dec_token(b));
        },
    }
}

/// Render one capture in the given format: verbatim bytes for `Raw`;
/// for the textual formats, one token per byte, single separators in
/// between, and exactly one terminating newline.
pub fn format_capture(data: &Vec<u8>, fmt: OutputFormat) -> (out: Vec<u8>)
    ensures
        out@ == rendered_output(data@, fmt),
{
    let mut out: Vec<u8> = Vec::new();
    match fmt {
        OutputFormat::Raw => {
            let mut i: usize = 0;
            while i < data.len()
                invariant
                    i <= data.len(),
                    out@ == data@.take(i as int),
                decreases data.len() - i,
            {
                out.push(data[i]);
                assert(out@ =~= data@.take(i + 1));
                i = i + 1;
            }
            assert(out@ =~= data@);
        },
        OutputFormat::Hexadecimal | OutputFormat::Decimal => {
            let mut i: usize = 0;
            while i < data.len()
                invariant
                    i <= data.len(),
                    fmt != OutputFormat::Raw,
                    out@ == joined_tokens(data@.take(i as int), fmt),
                decreases data.len() - i,
            {
                if i != 0 {
                    out.push(SEPARATOR);
                }
                push_token(&mut out, data[i], fmt);
                proof {
                    let taken = data@.take(i + 1);
                    assert(taken.drop_last() =~= data@.take(i as int));
                    assert(taken.last() == data@[i as int]);
                    assert(out@ =~= joined_tokens(taken, fmt));
                }
                i = i + 1;
            }
            assert(data@.take(data.len() as int) =~= data@);
            out.push(NEWLINE);
            assert(out@ =~= joined_tokens(data@, fmt) + seq![NEWLINE]);
        },
    }
    out
}

/// An ASCII byte that can appear inside a token: a decimal digit or an
/// uppercase hexadecimal letter. Never the separator, never the newline.
pub open spec fn is_token_byte(c: u8) -> bool {
    (0x30 <= c <= 0x39) || (0x41 <= c <= 0x46)
}

/// Every textual token is nonempty and made of token bytes only.
proof fn lemma_token_bytes(b: u8, fmt: OutputFormat)
    requires
        fmt != OutputFormat::Raw,
    ensures
        byte_token(b, fmt).len() >= 1,
        forall|i: int| 0 <= i < byte_token(b, fmt).len() ==> is_token_byte(#[trigger] byte_token(b, fmt)[i]),
{
    match fmt {
        OutputFormat::Raw => {
        },
        OutputFormat::Hexadecimal => {
            assert(b / 16 < 16);
            assert(b % 16 < 16);
            assert(is_token_byte(hex_digit(b / 16)));
            assert(is_token_byte(hex_digit(b % 16)));
            assert(forall|i: int| 0 <= i < byte_token(b, fmt).len()
                ==> is_token_byte(#[trigger] byte_token(b, fmt)[i]));
        },
        OutputFormat::Decimal => {
            if b < 10 {
            } else if b < 100 {
                assert(b / 10 < 10);
            } else {
                assert(b / 100 < 10);
                assert((b / 10) % 10 < 10);
            }
            assert(forall|i: int| 0 <= i < byte_token(b, fmt).len()
                ==> is_token_byte(#[trigger] byte_token(b, fmt)[i]));
        },
    }
}

/// The joined tokens start and end with a token byte, hold only token
/// bytes and single separators, and never two separators in a row.
proof fn lemma_joined_tokens_shape(bytes: Seq<u8>, fmt: OutputFormat)
    requires
        fmt != OutputFormat::Raw,
    ensures
        bytes.len() == 0 ==> joined_tokens(bytes, fmt).len() == 0,
        bytes.len() > 0 ==> joined_tokens(bytes, fmt).len() >= 1,
        bytes.len() > 0 ==> is_token_byte(joined_tokens(bytes, fmt)[0]),
        bytes.len() > 0 ==> is_token_byte(joined_tokens(bytes, fmt).last()),
        forall|i: int| 0 <= i < joined_tokens(bytes, fmt).len()
            ==> is_token_byte(#[trigger] joined_tokens(bytes, fmt)[i])
                || joined_tokens(bytes, fmt)[i] == SEPARATOR,
        forall|i: int| 0 <= i < joined_tokens(bytes, fmt).len() - 1
            ==> !(#[trigger] joined_tokens(bytes, fmt)[i] == SEPARATOR
                && joined_tokens(bytes, fmt)[i + 1] == SEPARATOR),
    decreases bytes.len(),
{
    if bytes.len() == 0 {
    } else if bytes.len() == 1 {
        lemma_token_bytes(bytes[0], fmt);
    } else {
        lemma_joined_tokens_shape(bytes.drop_last(), fmt);
        lemma_token_bytes(bytes.last(), fmt);
        let prefix = joined_tokens(bytes.drop_last(), fmt);
        let token = byte_token(bytes.last(), fmt);
        let whole = joined_tokens(bytes, fmt);
        assert(whole == prefix + seq![SEPARATOR] + token);
        assert(whole.len() == prefix.len() + 1 + token.len());
        assert(forall|i: int| 0 <= i < prefix.len() ==> whole[i] == prefix[i]);
        assert(whole[prefix.len() as int] == SEPARATOR);
        assert(forall|i: int| prefix.len() + 1 <= i < whole.len()
            ==> whole[i] == token[i - prefix.len() - 1]);
        assert(is_token_byte(whole[0]));
        assert(whole.last() == token.last());
        assert(is_token_byte(whole.last()));
        assert forall|i: int| 0 <= i < whole.len() - 1
            implies !(#[trigger] whole[i] == SEPARATOR && whole[i + 1] == SEPARATOR) by {
            if i < prefix.len() - 1 {
            } else if i == prefix.len() - 1 {
                assert(is_token_byte(prefix.last()));
            } else if i == prefix.len() {
                assert(is_token_byte(token[0]));
            }
        }
    }
}

/// Law: a hexadecimal or decimal rendering never contains a leading,
/// trailing, or doubled separator, and ends with exactly one newline.
pub proof fn lemma_text_rendering_well_separated(bytes: Seq<u8>, fmt: OutputFormat)
    requires
        fmt != OutputFormat::Raw,
    ensures
        rendered_output(bytes, fmt).len() >= 1,
        rendered_output(bytes, fmt).last() == NEWLINE,
        forall|i: int| 0 <= i < rendered_output(bytes, fmt).len() - 1
            ==> #[trigger] rendered_output(bytes, fmt)[i] != NEWLINE,
        rendered_output(bytes, fmt)[0] != SEPARATOR,
        rendered_output(bytes, fmt).len() >= 2
            ==> rendered_output(bytes, fmt)[rendered_output(bytes, fmt).len() - 2] != SEPARATOR,
        forall|i: int| 0 <= i < rendered_output(bytes, fmt).len() - 1
            ==> !(#[trigger] rendered_output(bytes, fmt)[i] == SEPARATOR
                && rendered_output(bytes, fmt)[i + 1] == SEPARATOR),
{
    lemma_joined_tokens_shape(bytes, fmt);
    let joined = joined_tokens(bytes, fmt);
    let whole = rendered_output(bytes, fmt);
    assert(whole == joined + seq![NEWLINE]);
    assert(whole.len() == joined.len() + 1);
    assert(forall|i: int| 0 <= i < joined.len() ==> whole[i] == joined[i]);
    assert(whole.last() == NEWLINE);
    assert forall|i: int| 0 <= i < whole.len() - 1 implies #[trigger] whole[i] != NEWLINE by {
        assert(is_token_byte(joined[i]) || joined[i] == SEPARATOR);
    }
    if joined.len() >= 1 {
        assert(is_token_byte(joined[0]));
        assert(is_token_byte(joined.last()));
        assert(whole[whole.len() - 2] == joined.last());
    }
}

/// What a whole run of transactions writes to the sink: the renderings of
/// the captures, one after another, in order.
pub open spec fn session_output(captures: Seq<Seq<u8>>, fmt: OutputFormat) -> Seq<u8>
    decreases captures.len(),
{
    if captures.len() == 0 {
        seq![]
    } else {
        rendered_output(captures.first(), fmt) + session_output(captures.drop_first(), fmt)
    }
}

/// Appending one more capture appends exactly its own rendering.
pub proof fn lemma_session_output_snoc(captures: Seq<Seq<u8>>, c: Seq<u8>, fmt: OutputFormat)
    ensures
        session_output(captures.push(c), fmt) == session_output(captures, fmt) + rendered_output(c, fmt),
    decreases captures.len(),
{
    if captures.len() == 0 {
        assert(captures.push(c).first() == c);
        assert(captures.push(c).drop_first() =~= Seq::<Seq<u8>>::empty());
        assert(session_output(Seq::<Seq<u8>>::empty(), fmt) == Seq::<u8>::empty());
        assert(session_output(captures.push(c), fmt) =~= rendered_output(c, fmt));
        assert(session_output(captures, fmt) + rendered_output(c, fmt) =~= rendered_output(c, fmt));
    } else {
        lemma_session_output_snoc(captures.drop_first(), c, fmt);
        assert(captures.push(c).first() == captures.first());
        assert(captures.push(c).drop_first() =~= captures.drop_first().push(c));
        assert(session_output(captures.push(c), fmt)
            =~= session_output(captures, fmt) + rendered_output(c, fmt));
    }
}

/// Law: a run of `N` transactions emits exactly `N` output blocks, in
/// order, and block `i` is the rendering of capture `i` alone — nothing
/// from any other iteration leaks into it.
pub proof fn lemma_session_output_blocks(captures: Seq<Seq<u8>>, fmt: OutputFormat, i: int)
    requires
        0 <= i < captures.len(),
    ensures
        session_output(captures, fmt) == session_output(captures.take(i), fmt)
            + rendered_output(captures[i], fmt) + session_output(captures.skip(i + 1), fmt),
    decreases i,
{
    if i == 0 {
        assert(captures.take(0) =~= Seq::<Seq<u8>>::empty());
        assert(captures.skip(1) =~= captures.drop_first());
        assert(session_output(captures, fmt)
            =~= session_output(captures.take(0), fmt) + rendered_output(captures[0], fmt)
                + session_output(captures.skip(1), fmt));
    } else {
        lemma_session_output_blocks(captures.drop_first(), fmt, i - 1);
        assert(captures.drop_first().take(i - 1) =~= captures.take(i).drop_first());
        assert(captures.drop_first()[i - 1] == captures[i]);
        assert(captures.drop_first().skip(i) =~= captures.skip(i + 1));
        assert(captures.take(i).len() > 0);
        assert(captures.take(i).first() == captures.first());
        assert(session_output(captures.take(i), fmt)
            == rendered_output(captures.first(), fmt)
                + session_output(captures.take(i).drop_first(), fmt));
        assert(session_output(captures, fmt)
            =~= session_output(captures.take(i), fmt) + rendered_output(captures[i], fmt)
                + session_output(captures.skip(i + 1), fmt));
    }
}

/// Render a whole run's captures, one block per capture, in order.
pub fn render_session(captures: &Vec<Vec<u8>>, fmt: OutputFormat) -> (out: Vec<u8>)
    ensures
        out@ == session_output(captures.deep_view(), fmt),
{
    let ghost all = captures.deep_view();
    let mut out: Vec<u8> = Vec::new();
    let mut i: usize = 0;
    while i < captures.len()
        invariant
            i <= captures.len(),
            all == captures.deep_view(),
            all.len() == captures@.len(),
            forall|j: int| 0 <= j < captures@.len() ==> all[j] == captures@[j]@,
            out@ == session_output(all.take(i as int), fmt),
        decreases captures.len() - i,
    {
        let mut block = format_capture(&captures[i], fmt);
        out.append(&mut block);
        proof {
            lemma_session_output_snoc(all.take(i as int), all[i as int], fmt);
            assert(all.take(i + 1) =~= all.take(i as int).push(all[i as int]));
        }
        i = i + 1;
    }
    proof {
        assert(all.take(captures@.len() as int) =~= all);
    }
    out
}

} // verus!
