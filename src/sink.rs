use vstd::prelude::*;

verus! {

/// The decimal digit `d` as a character.
pub open spec fn digit_char(d: nat) -> char {
    if d == 0 { '0' }
    else if d == 1 { '1' }
    else if d == 2 { '2' }
    else if d == 3 { '3' }
    else if d == 4 { '4' }
    else if d == 5 { '5' }
    else if d == 6 { '6' }
    else if d == 7 { '7' }
    else if d == 8 { '8' }
    else { '9' }
}

/// The decimal notation of `n`, without leading zeros.
pub open spec fn decimal(n: nat) -> Seq<char>
    decreases n,
{
    if n < 10 {
        seq![digit_char(n)]
    } else {
        decimal(n / 10).push(digit_char(n % 10))
    }
}

/// The line that a log message is written as: `<sender>[<severity>]: <message>`.
pub open spec fn log_line(sender_id: u64, severity_level: u8, message: Seq<char>) -> Seq<char> {
    decimal(sender_id as nat) + seq!['['] + decimal(severity_level as nat) + seq![']', ':', ' ']
        + message
}

fn digit_str(d: u64) -> (r: &'static str)
    requires
        d < 10,
    ensures
        r@ == seq![digit_char(d as nat)],
{
    if d == 0 {
        proof { reveal_strlit("0"); }
        "0"
    } else if d == 1 {
        proof { reveal_strlit("1"); }
        "1"
    } else if d == 2 {
        proof { reveal_strlit("2"); }
        "2"
    } else if d == 3 {
        proof { reveal_strlit("3"); }
        "3"
    } else if d == 4 {
        proof { reveal_strlit("4"); }
        "4"
    } else if d == 5 {
        proof { reveal_strlit("5"); }
        "5"
    } else if d == 6 {
        proof { reveal_strlit("6"); }
        "6"
    } else if d == 7 {
        proof { reveal_strlit("7"); }
        "7"
    } else if d == 8 {
        proof { reveal_strlit("8"); }
        "8"
    } else {
        proof { reveal_strlit("9"); }
        "9"
    }
}

/// Appends the decimal notation of `n` to `out`.
pub fn push_decimal(out: &mut String, n: u64)
    ensures
        final(out)@ == old(out)@ + decimal(n as nat),
    decreases n,
{
    if n >= 10 {
        push_decimal(out, n / 10);
    }
    out.append(digit_str(n % 10));
    assert(final(out)@ =~= old(out)@ + decimal(n as nat));
}

/// Formats a log message as the line the sink receives.
pub fn format_log_line(sender_id: u64, severity_level: u8, message: &String) -> (r: String)
    ensures
        r@ == log_line(sender_id, severity_level, message@),
{
    let mut line = String::new();
    push_decimal(&mut line, sender_id);
    proof { reveal_strlit("["); }
    line.append("[");
    push_decimal(&mut line, severity_level as u64);
    proof { reveal_strlit("]: "); }
    line.append("]: ");
    line.append(message.as_str());
    assert(line@ =~= log_line(sender_id, severity_level, message@));
    line
}

/// An in-memory destination for text lines.
pub struct TextSink {
    lines: Vec<String>,
}

impl TextSink {
    pub closed spec fn view(&self) -> Seq<Seq<char>> {
        Seq::new(self.lines@.len(), |i: int| self.lines@[i]@)
    }

    pub fn new() -> (r: TextSink)
        ensures
            r@ == Seq::<Seq<char>>::empty(),
    {
        let r = TextSink { lines: Vec::new() };
        assert(r@ =~= Seq::<Seq<char>>::empty());
        r
    }

    /// Appends one line.
    pub fn write_line(&mut self, line: String)
        ensures
            final(self)@ == old(self)@.push(line@),
    {
        self.lines.push(line);
        assert(self@ =~= old(self)@.push(line@));
    }

    /// Hands over the lines written so far and leaves the sink empty.
    pub fn take_lines(&mut self) -> (r: Vec<String>)
        ensures
            r@.map_values(|l: String| l@) == old(self)@,
            final(self)@ == Seq::<Seq<char>>::empty(),
    {
        let mut taken: Vec<String> = Vec::new();
        std::mem::swap(&mut taken, &mut self.lines);
        assert(taken@.map_values(|l: String| l@) =~= old(self)@);
        assert(self@ =~= Seq::<Seq<char>>::empty());
        taken
    }

    pub fn len(&self) -> (r: usize)
        ensures
            r == self@.len(),
    {
        self.lines.len()
    }

    pub fn line(&self, i: usize) -> (r: &String)
        requires
            i < self@.len(),
        ensures
            r@ == self@[i as int],
    {
        &self.lines[i]
    }
}

} // verus!
