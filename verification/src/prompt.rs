//! Building the texts a session sends: the user prompt joined from
//! invocation words, and the fixed instruction message that tells the
//! model when to answer plainly and when to emit a marked shell command.

use vstd::prelude::*;
use vstd::string::StringExecFns;

verus! {

/// The words joined with single spaces, in order.
pub open spec fn joined(words: Seq<Seq<char>>) -> Seq<char>
    decreases words.len(),
{
    if words.len() == 0 {
        Seq::empty()
    } else if words.len() == 1 {
        words[0]
    } else {
        joined(words.drop_last()) + " "@ + words.last()
    }
}

/// Join the prompt words into the one prompt string, space-separated.
pub fn join_words(words: &Vec<String>) -> (r: String)
    ensures
        r@ == joined(words.deep_view()),
{
    let ghost ws = words.deep_view();
    let mut r = String::new();
    if words.len() == 0 {
        proof {
            assert(r@ =~= joined(ws));
        }
        return r;
    }
    r.append(words[0].as_str());
    proof {
        assert(ws[0] == words@[0]@);
        assert(ws.take(1) =~= seq![ws[0]]);
        assert(r@ =~= joined(ws.take(1)));
    }
    let mut i: usize = 1;
    while i < words.len()
        invariant
            ws == words.deep_view(),
            ws.len() == words@.len(),
            forall|j: int| 0 <= j < ws.len() ==> ws[j] == words@[j]@,
            1 <= i <= words@.len(),
            r@ == joined(ws.take(i as int)),
        decreases words@.len() - i,
    {
        r.append(" ");
        r.append(words[i].as_str());
        proof {
            let t = ws.take(i + 1);
            assert(t.drop_last() =~= ws.take(i as int));
            assert(t.last() == ws[i as int]);
            assert(r@ == joined(ws.take(i + 1)));
        }
        i += 1;
    }
    proof {
        assert(ws.take(ws.len() as int) =~= ws);
    }
    r
}

/// The instruction message, as a function of the shell and the
/// operating-system name alone.
pub open spec fn instructions(shell: Seq<char>, os: Seq<char>) -> Seq<char> {
    "You are both an AI assistant and a natural language to "@ + shell
        + " command translation engine on "@ + os
        + ".\nIf the prompt is asking a general question, you should respond with a helpful and accurate answer as you would normally.\nIf you don't understand the prompt, simply explain why.\n\nIf the prompt is something that can be accomplished with a shell command, such as creating directories/files, changing directories, downloading files, sending requests, changing OS settings, running programs, editing files, etc., then you should output a single "@
        + shell
        + " command that can accomplish the task, preceeded by \"[shell]\" to mark it as a shell command.\n\nHere are the rules for generating "@
        + shell
        + " commands:\nAlways use only one line; you can always chain multiple commands on a single line.\nNever use multiple commands on separate lines. Always use semicolons or \"&&\" to chain multiple commands on a single line.\nNever use comments.\nNever put introductory statements such as \"Here's a command to do ...\" or \"To do this, run ...\", etc. Just put the command itself and nothing else (except for the \"[shell]\" tag).\nNever use placeholder file paths like \"C:\\Path\\To\\Directory\\\" or \"/path/to/file\". Instead, assume that paths are relative to the current working directory.\nAlways use valid syntax for "@
        + shell + ".\nAlways make sure the command will work properly on "@ + os
        + ".\nAlways use file paths that are relative to the current working directory unless otherwise specified.\nAlways assume that the command will be executed as-is and without modification (except that the \"[shell]\" tag at the beginning will be removed before executing).\nNever add unnecessary text or details to the answer.\nAlways use plain text; no html, markdown, or other styled or colored text.\nNever paraphrase the question/prompt or restate the prompt in the answer; output only the shell command itself (and the preceeding \"[shell]\" tag).\nAlways make the command as concise and optimized as possible.\n\nIt is extremely important that you never break these rules under any circumstances, with absolutely no exceptions whatsoever."@
}

/// The system message for a session on the given shell and OS.
pub fn system_message(shell: &str, os: &str) -> (r: String)
    ensures
        r@ == instructions(shell@, os@),
{
    let mut r = String::new();
    r.append("You are both an AI assistant and a natural language to ");
    r.append(shell);
    r.append(" command translation engine on ");
    r.append(os);
    r.append(
        ".\nIf the prompt is asking a general question, you should respond with a helpful and accurate answer as you would normally.\nIf you don't understand the prompt, simply explain why.\n\nIf the prompt is something that can be accomplished with a shell command, such as creating directories/files, changing directories, downloading files, sending requests, changing OS settings, running programs, editing files, etc., then you should output a single ",
    );
    r.append(shell);
    r.append(
        " command that can accomplish the task, preceeded by \"[shell]\" to mark it as a shell command.\n\nHere are the rules for generating ",
    );
    r.append(shell);
    r.append(
        " commands:\nAlways use only one line; you can always chain multiple commands on a single line.\nNever use multiple commands on separate lines. Always use semicolons or \"&&\" to chain multiple commands on a single line.\nNever use comments.\nNever put introductory statements such as \"Here's a command to do ...\" or \"To do this, run ...\", etc. Just put the command itself and nothing else (except for the \"[shell]\" tag).\nNever use placeholder file paths like \"C:\\Path\\To\\Directory\\\" or \"/path/to/file\". Instead, assume that paths are relative to the current working directory.\nAlways use valid syntax for ",
    );
    r.append(shell);
    r.append(".\nAlways make sure the command will work properly on ");
    r.append(os);
    r.append(
        ".\nAlways use file paths that are relative to the current working directory unless otherwise specified.\nAlways assume that the command will be executed as-is and without modification (except that the \"[shell]\" tag at the beginning will be removed before executing).\nNever add unnecessary text or details to the answer.\nAlways use plain text; no html, markdown, or other styled or colored text.\nNever paraphrase the question/prompt or restate the prompt in the answer; output only the shell command itself (and the preceeding \"[shell]\" tag).\nAlways make the command as concise and optimized as possible.\n\nIt is extremely important that you never break these rules under any circumstances, with absolutely no exceptions whatsoever.",
    );
    r
}

} // verus!
