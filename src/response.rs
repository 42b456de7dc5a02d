use vstd::prelude::*;
use vstd::string::*;

verus! {

/// The body of a response, which only grows.
#[derive(Debug)]
pub struct ResponseWriter {
    buffer: Vec<u8>,
}

impl View for ResponseWriter {
    type V = Seq<u8>;

    closed spec fn view(&self) -> Seq<u8> {
        self.buffer@
    }
}

impl Default for ResponseWriter {
    fn default() -> (r: Self)
        ensures
            r@ == Seq::<u8>::empty(),
    {
        ResponseWriter { buffer: Vec::new() }
    }
}

impl ResponseWriter {
    /// Appends `content` to the body.
    pub fn write(&mut self, content: &[u8])
        ensures
            final(self)@ == old(self)@ + content@,
    {
        let mut i: usize = 0;
        let ghost start = self@;
        while i < content.len()
            invariant
                i <= content@.len(),
                self@ == start + content@.take(i as int),
            decreases content@.len() - i,
        {
            self.buffer.push(content[i]);
            assert(content@.take(i + 1) =~= content@.take(i as int).push(content@[i as int]));
            i = i + 1;
        }
        assert(content@.take(content@.len() as int) =~= content@);
    }

    /// The body written so far.
    pub fn get_buffer(&self) -> (r: &[u8])
        ensures
            r@ == self@,
    {
        self.buffer.as_slice()
    }
}

/// What is sent back for one request: a status, a content type and a body.
#[derive(Debug)]
pub struct Response {
    pub status_code: &'static str,
    pub status_text: &'static str,
    pub content_type: &'static str,
    pub charset: &'static str,
    pub writer: ResponseWriter,
}

impl Response {
    pub fn new(
        status_code: &'static str,
        status_text: &'static str,
        content_type: &'static str,
        charset: &'static str,
    ) -> (r: Self)
        ensures
            r.status_code == status_code,
            r.status_text == status_text,
            r.content_type == content_type,
            r.charset == charset,
            r.writer@ == Seq::<u8>::empty(),
    {
        Response { status_code, status_text, content_type, charset, writer: ResponseWriter::default() }
    }

    /// The status line, `"{version} {code} {text}\r\n"`.
    pub fn status_line(&self, version: &str) -> (r: String)
        ensures
            r@ == status_line_text(version@, self),
    {
        let mut line = String::from_str(version);
        line.append(" ");
        line.append(self.status_code);
        line.append(" ");
        line.append(self.status_text);
        line.append("\r\n");
        line
    }

    /// The header block: content type with charset, then the body's length,
    /// then the blank line that ends the headers.
    pub fn header_block(&self) -> (r: String)
        ensures
            r@ == header_text(self),
    {
        let mut head = String::from_str("Content-Type: ");
        head.append(self.content_type);
        head.append("; charset=");
        head.append(self.charset);
        head.append("\r\nContent-Length: ");
        append_decimal(&mut head, self.writer.get_buffer().len());
        head.append("\r\n\r\n");
        head
    }
}

impl Default for Response {
    fn default() -> (r: Self)
        ensures
            r.status_code@ == "200"@,
            r.status_text@ == "ok"@,
            r.content_type@ == "text/html"@,
            r.charset@ == "utf-8"@,
            r.writer@ == Seq::<u8>::empty(),
    {
        Response::new("200", "ok", "text/html", "utf-8")
    }
}

pub open spec fn status_line_text(version: Seq<char>, r: &Response) -> Seq<char> {
    version + " "@ + r.status_code@ + " "@ + r.status_text@ + "\r\n"@
}

pub open spec fn header_text(r: &Response) -> Seq<char> {
    "Content-Type: "@ + r.content_type@ + "; charset="@ + r.charset@ + "\r\nContent-Length: "@
        + decimal(r.writer@.len()) + "\r\n\r\n"@
}

/// The decimal digit for `d < 10`.
pub open spec fn digit_char(d: nat) -> char {
    if d == 0 {
        '0'
    } else if d == 1 {
        '1'
    } else if d == 2 {
        '2'
    } else if d == 3 {
        '3'
    } else if d == 4 {
        '4'
    } else if d == 5 {
        '5'
    } else if d == 6 {
        '6'
    } else if d == 7 {
        '7'
    } else if d == 8 {
        '8'
    } else {
        '9'
    }
}

/// `n` written in decimal, without leading zeros.
pub open spec fn decimal(n: nat) -> Seq<char>
    decreases n,
{
    if n < 10 {
        seq![digit_char(n)]
    } else {
        decimal(n / 10).push(digit_char(n % 10))
    }
}

fn digit_str(d: usize) -> (r: &'static str)
    requires
        d < 10,
    ensures
        r@ == seq![digit_char(d as nat)],
{
    proof {
        reveal_strlit("0");
        reveal_strlit("1");
        reveal_strlit("2");
        reveal_strlit("3");
        reveal_strlit("4");
        reveal_strlit("5");
        reveal_strlit("6");
        reveal_strlit("7");
        reveal_strlit("8");
        reveal_strlit("9");
    }
    let r = if d == 0 {
        "0"
    } else if d == 1 {
        "1"
    } else if d == 2 {
        "2"
    } else if d == 3 {
        "3"
    } else if d == 4 {
        "4"
    } else if d == 5 {
        "5"
    } else if d == 6 {
        "6"
    } else if d == 7 {
        "7"
    } else if d == 8 {
        "8"
    } else {
        "9"
    };
    assert(r@ =~= seq![digit_char(d as nat)]);
    r
}

/// Appends `n` in decimal to `s`.
pub fn append_decimal(s: &mut String, n: usize)
    ensures
        final(s)@ == old(s)@ + decimal(n as nat),
    decreases n,
{
    if n >= 10 {
        append_decimal(s, n / 10);
    }
    s.append(digit_str(n % 10));
    assert(s@ =~= old(s)@ + decimal(n as nat));
}

} // verus!
