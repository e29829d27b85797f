//! Selection of services by the tokens of a comma-separated list.

use crate::text::{
    all_ascii, ascii_lowered, lemma_split_ascii, lemma_split_joined, lemma_split_without_sep,
    lemma_trimmed_ascii, lowercase_of, same_text, split, split_on, texts, to_lowercase, trim,
    trimmed,
};
use vstd::prelude::*;

verus! {

/// A service that has a collector.
#[derive(Debug, Clone, Copy, PartialEq, Eq, Structural)]
pub enum ServiceKind {
    S3,
    EC2,
    CloudWatchLogs,
    EC2Ebs,
    Ecr,
    CloudTrail,
    SQS,
    OpenSearch,
    Backup,
    SNS,
    Kinesis,
}

/// The service that a token in lower case selects, if it selects one.
pub open spec fn kind_of_token(t: Seq<char>) -> Option<ServiceKind> {
    if t == "s3"@ {
        Some(ServiceKind::S3)
    } else if t == "ec2"@ {
        Some(ServiceKind::EC2)
    } else if t == "cloudwatch-logs"@ || t == "logs"@ {
        Some(ServiceKind::CloudWatchLogs)
    } else if t == "ec2-ebs"@ || t == "ebs"@ {
        Some(ServiceKind::EC2Ebs)
    } else if t == "ecr"@ {
        Some(ServiceKind::Ecr)
    } else if t == "cloudtrail"@ {
        Some(ServiceKind::CloudTrail)
    } else if t == "sqs"@ {
        Some(ServiceKind::SQS)
    } else if t == "opensearch"@ || t == "es"@ {
        Some(ServiceKind::OpenSearch)
    } else if t == "backup"@ {
        Some(ServiceKind::Backup)
    } else if t == "sns"@ {
        Some(ServiceKind::SNS)
    } else if t == "kinesis"@ {
        Some(ServiceKind::Kinesis)
    } else {
        None
    }
}

/// The services that a list of tokens in lower case selects, in the order
/// of the tokens. A token that selects none is passed over.
pub open spec fn kinds_of_tokens(tokens: Seq<Seq<char>>) -> Seq<ServiceKind>
    decreases tokens.len(),
{
    if tokens.len() == 0 {
        Seq::empty()
    } else {
        let rest = kinds_of_tokens(tokens.drop_last());
        match kind_of_token(tokens.last()) {
            Some(k) => rest.push(k),
            None => rest,
        }
    }
}

/// The tokens of a list: its comma-separated pieces, trimmed and in lower
/// case.
pub open spec fn tokens_of(s: Seq<char>) -> Seq<Seq<char>> {
    split(s, ',').map_values(|p: Seq<char>| lowercase_of(trimmed(p)))
}

/// The tokens of a list of ASCII characters.
pub open spec fn ascii_tokens_of(s: Seq<char>) -> Seq<Seq<char>> {
    split(s, ',').map_values(|p: Seq<char>| ascii_lowered(trimmed(p)))
}

/// The pieces of a comma-separated list, trimmed, without the empty ones.
pub open spec fn scope_of(s: Seq<char>) -> Seq<Seq<char>> {
    split(s, ',').map_values(|p: Seq<char>| trimmed(p)).filter(|p: Seq<char>| p.len() > 0)
}

impl ServiceKind {
    /// The service that a token in lower case selects.
    pub fn from_token(token: &str) -> (r: Option<ServiceKind>)
        ensures
            r == kind_of_token(token@),
    {
        if same_text(token, "s3") {
            Some(ServiceKind::S3)
        } else if same_text(token, "ec2") {
            Some(ServiceKind::EC2)
        } else if same_text(token, "cloudwatch-logs") || same_text(token, "logs") {
            Some(ServiceKind::CloudWatchLogs)
        } else if same_text(token, "ec2-ebs") || same_text(token, "ebs") {
            Some(ServiceKind::EC2Ebs)
        } else if same_text(token, "ecr") {
            Some(ServiceKind::Ecr)
        } else if same_text(token, "cloudtrail") {
            Some(ServiceKind::CloudTrail)
        } else if same_text(token, "sqs") {
            Some(ServiceKind::SQS)
        } else if same_text(token, "opensearch") || same_text(token, "es") {
            Some(ServiceKind::OpenSearch)
        } else if same_text(token, "backup") {
            Some(ServiceKind::Backup)
        } else if same_text(token, "sns") {
            Some(ServiceKind::SNS)
        } else if same_text(token, "kinesis") {
            Some(ServiceKind::Kinesis)
        } else {
            None
        }
    }

    /// The services that tokens in lower case select, in the order of the
    /// tokens.
    pub fn from_tokens(tokens: &Vec<String>) -> (r: Vec<ServiceKind>)
        ensures
            r@ == kinds_of_tokens(texts(tokens@)),
    {
        let mut out: Vec<ServiceKind> = Vec::new();
        let n: usize = tokens.len();
        let mut i: usize = 0;
        assert(texts(tokens@).subrange(0, 0) =~= Seq::<Seq<char>>::empty());
        while i < n
            invariant
                n == tokens@.len(),
                i <= n,
                out@ == kinds_of_tokens(texts(tokens@).subrange(0, i as int)),
            decreases n - i,
        {
            let found = ServiceKind::from_token(tokens[i].as_str());
            proof {
                let next = texts(tokens@).subrange(0, i + 1);
                assert(next.drop_last() =~= texts(tokens@).subrange(0, i as int));
                assert(next.last() == tokens@[i as int]@);
            }
            match found {
                Some(k) => {
                    out.push(k);
                },
                None => {},
            }
            i = i + 1;
        }
        assert(texts(tokens@).subrange(0, n as int) =~= texts(tokens@));
        out
    }

    /// The services that a comma-separated list selects. Each piece is
    /// trimmed and put in lower case; a piece that names no service is
    /// passed over.
    pub fn parse_list(s: &str) -> (r: Vec<ServiceKind>)
        ensures
            r@ == kinds_of_tokens(tokens_of(s@)),
            all_ascii(s@) ==> r@ == kinds_of_tokens(ascii_tokens_of(s@)),
    {
        let pieces = split_on(s, ',');
        let mut tokens: Vec<String> = Vec::new();
        let n: usize = pieces.len();
        let mut i: usize = 0;
        proof {
            if all_ascii(s@) {
                lemma_split_ascii(s@, ',');
            }
        }
        while i < n
            invariant
                n == pieces@.len(),
                texts(pieces@) == split(s@, ','),
                i <= n,
                tokens@.len() == i,
                forall|j: int| 0 <= j < i ==> (#[trigger] tokens@[j])@ == tokens_of(s@)[j],
                all_ascii(s@) ==> forall|j: int|
                    0 <= j < i ==> (#[trigger] tokens@[j])@ == ascii_tokens_of(s@)[j],
                all_ascii(s@) ==> forall|j: int|
                    0 <= j < n ==> all_ascii(#[trigger] split(s@, ',')[j]),
            decreases n - i,
        {
            let piece = trim(pieces[i].as_str());
            proof {
                assert(texts(pieces@)[i as int] == pieces@[i as int]@);
                if all_ascii(s@) {
                    lemma_trimmed_ascii(split(s@, ',')[i as int]);
                }
            }
            let token = to_lowercase(piece);
            tokens.push(token);
            i = i + 1;
        }
        proof {
            assert(texts(tokens@) =~= tokens_of(s@));
            if all_ascii(s@) {
                assert(texts(tokens@) =~= ascii_tokens_of(s@));
            }
        }
        ServiceKind::from_tokens(&tokens)
    }
}

/// The scope that a comma-separated list names: its pieces, trimmed, without
/// the empty ones.
pub fn parse_scope(s: &str) -> (r: Vec<String>)
    ensures
        texts(r@) == scope_of(s@),
{
    let pieces = split_on(s, ',');
    let mut out: Vec<String> = Vec::new();
    let n: usize = pieces.len();
    let mut i: usize = 0;
    let ghost trimmed_pieces = split(s@, ',').map_values(|p: Seq<char>| trimmed(p));
    let ghost keep = |p: Seq<char>| p.len() > 0;
    proof {
        assert(trimmed_pieces.subrange(0, 0) =~= Seq::<Seq<char>>::empty());
        assert(texts(out@) =~= Seq::<Seq<char>>::empty());
    }
    while i < n
        invariant
            n == pieces@.len(),
            texts(pieces@) == split(s@, ','),
            trimmed_pieces == split(s@, ',').map_values(|p: Seq<char>| trimmed(p)),
            keep == |p: Seq<char>| p.len() > 0,
            i <= n,
            texts(out@) == trimmed_pieces.subrange(0, i as int).filter(keep),
        decreases n - i,
    {
        let piece = trim(pieces[i].as_str());
        proof {
            assert(texts(pieces@)[i as int] == pieces@[i as int]@);
            let done = trimmed_pieces.subrange(0, i as int);
            let next = trimmed_pieces.subrange(0, i + 1);
            assert(next =~= done.push(trimmed_pieces[i as int]));
            assert(next.drop_last() =~= done);
            reveal(Seq::filter);
        }
        if !piece.is_empty() {
            let owned = piece.to_owned();
            proof {
                assert(texts(out@.push(owned)) =~= texts(out@).push(owned@));
            }
            out.push(owned);
        }
        i = i + 1;
    }
    assert(trimmed_pieces.subrange(0, n as int) =~= trimmed_pieces);
    out
}

/// A list that holds one piece selects what that piece, trimmed and in lower
/// case, selects: one service where it is a token of the table, and none
/// otherwise. This is stated of lists of ASCII characters.
pub proof fn lemma_single_token(s: Seq<char>)
    requires
        !s.contains(','),
    ensures
        kinds_of_tokens(ascii_tokens_of(s)) == match kind_of_token(ascii_lowered(trimmed(s))) {
            Some(k) => seq![k],
            None => Seq::<ServiceKind>::empty(),
        },
{
    lemma_split_without_sep(s, ',');
    let tokens = ascii_tokens_of(s);
    assert(tokens =~= seq![ascii_lowered(trimmed(s))]);
    assert(tokens.drop_last() =~= Seq::<Seq<char>>::empty());
    assert(kinds_of_tokens(tokens.drop_last()) =~= Seq::<ServiceKind>::empty());
    match kind_of_token(tokens.last()) {
        Some(k) => {
            assert(kinds_of_tokens(tokens) =~= seq![k]);
        },
        None => {},
    }
}

/// Selection goes token by token: the services of two lists of tokens put
/// one after the other are those of the first followed by those of the
/// second.
pub proof fn lemma_kinds_concat(a: Seq<Seq<char>>, b: Seq<Seq<char>>)
    ensures
        kinds_of_tokens(a + b) == kinds_of_tokens(a) + kinds_of_tokens(b),
    decreases b.len(),
{
    if b.len() == 0 {
        assert(a + b =~= a);
        assert(kinds_of_tokens(a) + kinds_of_tokens(b) =~= kinds_of_tokens(a));
    } else {
        lemma_kinds_concat(a, b.drop_last());
        assert((a + b).drop_last() =~= a + b.drop_last());
        assert((a + b).last() == b.last());
        match kind_of_token(b.last()) {
            Some(k) => {
                assert((kinds_of_tokens(a) + kinds_of_tokens(b.drop_last())).push(k)
                    =~= kinds_of_tokens(a) + kinds_of_tokens(b.drop_last()).push(k));
            },
            None => {},
        }
    }
}

/// A token of lower-case letters, digits and hyphens is kept as it is when
/// it is trimmed and put in lower case, and it is one piece.
pub open spec fn is_plain_token(t: Seq<char>) -> bool {
    forall|i: int|
        0 <= i < t.len() ==> {
            let c = #[trigger] t[i] as u32;
            ||| 0x61 <= c <= 0x7a
            ||| 0x30 <= c <= 0x39
            ||| c == 0x2d
        }
}

/// A plain token selects what the table gives for it.
pub proof fn lemma_plain_token(t: Seq<char>)
    requires
        is_plain_token(t),
    ensures
        kinds_of_tokens(ascii_tokens_of(t)) == match kind_of_token(t) {
            Some(k) => seq![k],
            None => Seq::<ServiceKind>::empty(),
        },
{
    assert(!t.contains(',')) by {
        if t.contains(',') {
            let i = choose|i: int| 0 <= i < t.len() && t[i] == ',';
            assert(t[i] as u32 == 0x2c);
        }
    }
    assert(crate::text::trim_front(t) == t) by {
        if t.len() > 0 {
            assert(!crate::text::is_space(t[0]));
        }
    }
    assert(crate::text::trim_back(t) == t) by {
        if t.len() > 0 {
            assert(!crate::text::is_space(t[t.len() - 1]));
        }
    }
    assert(ascii_lowered(t) =~= t) by {
        assert forall|i: int| 0 <= i < t.len() implies crate::text::ascii_lower(t[i]) == t[i] by {
            let c = t[i] as u32;
        }
    }
    lemma_single_token(t);
}

/// The tokens that select a service: its name, and for some services a
/// second name.
pub open spec fn tokens_of_kind(kind: ServiceKind) -> Seq<Seq<char>> {
    match kind {
        ServiceKind::S3 => seq!["s3"@],
        ServiceKind::EC2 => seq!["ec2"@],
        ServiceKind::CloudWatchLogs => seq!["cloudwatch-logs"@, "logs"@],
        ServiceKind::EC2Ebs => seq!["ec2-ebs"@, "ebs"@],
        ServiceKind::Ecr => seq!["ecr"@],
        ServiceKind::CloudTrail => seq!["cloudtrail"@],
        ServiceKind::SQS => seq!["sqs"@],
        ServiceKind::OpenSearch => seq!["opensearch"@, "es"@],
        ServiceKind::Backup => seq!["backup"@],
        ServiceKind::SNS => seq!["sns"@],
        ServiceKind::Kinesis => seq!["kinesis"@],
    }
}

/// Each token of a service selects that service and nothing else, and a
/// token that selects a service is one of its tokens.
pub proof fn lemma_token_table(kind: ServiceKind, t: Seq<char>)
    ensures
        tokens_of_kind(kind).contains(t) ==> kind_of_token(t) == Some(kind) && kinds_of_tokens(
            ascii_tokens_of(t),
        ) == seq![kind],
        kind_of_token(t) == Some(kind) ==> tokens_of_kind(kind).contains(t),
{
    reveal_strlit("s3");
    reveal_strlit("ec2");
    reveal_strlit("cloudwatch-logs");
    reveal_strlit("logs");
    reveal_strlit("ec2-ebs");
    reveal_strlit("ebs");
    reveal_strlit("ecr");
    reveal_strlit("cloudtrail");
    reveal_strlit("sqs");
    reveal_strlit("opensearch");
    reveal_strlit("es");
    reveal_strlit("backup");
    reveal_strlit("sns");
    reveal_strlit("kinesis");
    if tokens_of_kind(kind).contains(t) {
        let i = choose|i: int| 0 <= i < tokens_of_kind(kind).len() && tokens_of_kind(kind)[i] == t;
        assert(tokens_of_kind(kind)[i] == t);
        lemma_tokens_differ();
        assert(is_plain_token(t));
        lemma_plain_token(t);
    }
    if kind_of_token(t) == Some(kind) {
        match kind {
            ServiceKind::CloudWatchLogs => {
                if t == "logs"@ {
                    assert(tokens_of_kind(kind)[1] == t);
                } else {
                    assert(tokens_of_kind(kind)[0] == t);
                }
            },
            ServiceKind::EC2Ebs => {
                if t == "ebs"@ {
                    assert(tokens_of_kind(kind)[1] == t);
                } else {
                    assert(tokens_of_kind(kind)[0] == t);
                }
            },
            ServiceKind::OpenSearch => {
                if t == "es"@ {
                    assert(tokens_of_kind(kind)[1] == t);
                } else {
                    assert(tokens_of_kind(kind)[0] == t);
                }
            },
            _ => {
                assert(tokens_of_kind(kind)[0] == t);
            },
        }
    }
}

/// No two tokens of the table are the same text.
proof fn lemma_tokens_differ()
    ensures
        "s3"@ != "ec2"@,
        "s3"@ != "es"@,
        "ec2"@ != "ebs"@,
        "ec2"@ != "ecr"@,
        "ec2"@ != "sqs"@,
        "ec2"@ != "sns"@,
        "ebs"@ != "ecr"@,
        "ebs"@ != "sqs"@,
        "ebs"@ != "sns"@,
        "ecr"@ != "sqs"@,
        "ecr"@ != "sns"@,
        "sqs"@ != "sns"@,
        "cloudtrail"@ != "opensearch"@,
        "ec2-ebs"@ != "kinesis"@,
{
    reveal_strlit("s3");
    reveal_strlit("ec2");
    reveal_strlit("es");
    reveal_strlit("ebs");
    reveal_strlit("ecr");
    reveal_strlit("sqs");
    reveal_strlit("sns");
    reveal_strlit("cloudtrail");
    reveal_strlit("opensearch");
    reveal_strlit("ec2-ebs");
    reveal_strlit("kinesis");
    assert("s3"@[1] != "ec2"@[1]);
    assert("s3"@[0] != "es"@[0]);
    assert("ec2"@[1] != "ebs"@[1]);
    assert("ec2"@[2] != "ecr"@[2]);
    assert("ec2"@[0] != "sqs"@[0]);
    assert("ec2"@[0] != "sns"@[0]);
    assert("ebs"@[1] != "ecr"@[1]);
    assert("ebs"@[0] != "sqs"@[0]);
    assert("ebs"@[0] != "sns"@[0]);
    assert("ecr"@[0] != "sqs"@[0]);
    assert("ecr"@[0] != "sns"@[0]);
    assert("sqs"@[1] != "sns"@[1]);
    assert("cloudtrail"@[0] != "opensearch"@[0]);
    assert("ec2-ebs"@[0] != "kinesis"@[0]);
}

/// Two lists joined by a comma select what the first selects followed by
/// what the second selects. This is stated of lists of ASCII characters.
pub proof fn lemma_selection_of_joined(a: Seq<char>, b: Seq<char>)
    ensures
        kinds_of_tokens(ascii_tokens_of(a + seq![','] + b)) == kinds_of_tokens(ascii_tokens_of(a))
            + kinds_of_tokens(ascii_tokens_of(b)),
{
    lemma_split_joined(a, b, ',');
    assert(ascii_tokens_of(a + seq![','] + b) =~= ascii_tokens_of(a) + ascii_tokens_of(b));
    lemma_kinds_concat(ascii_tokens_of(a), ascii_tokens_of(b));
}

} // verus!
