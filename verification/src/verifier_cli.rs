//! The command line of the verifier program.
//!
//! The verifier is a program of its own. It is started with the proof file to
//! check and, where annotations are wanted, with the two files that it is to
//! write them to. The command line is laid out here as a list of slots: the
//! fixed words are given as text, and the places of the files are named, so
//! that whoever starts the program puts each path in as it is.

use vstd::prelude::*;
use vstd::string::*;

verus! {

/// One argument of the verifier's command line.
#[derive(Debug, Clone, Copy, PartialEq, Eq, Structural)]
pub enum VerifierArgument {
    /// The name of the verifier program.
    ProgramName,
    /// The flag that announces the proof file.
    InFileFlag,
    /// The place of the proof file.
    InFile,
    /// The flag that announces the annotation file.
    AnnotationFileFlag,
    /// The place of the annotation file.
    AnnotationFile,
    /// The flag that announces the extra output file.
    ExtraOutputFileFlag,
    /// The place of the extra output file.
    ExtraOutputFile,
}

impl VerifierArgument {
    /// The text of an argument that is a fixed word, and nothing for the
    /// place of a file.
    pub open spec fn fixed_text(self) -> Option<Seq<char>> {
        match self {
            VerifierArgument::ProgramName => Some("cpu_air_verifier"@),
            VerifierArgument::InFileFlag => Some("--in_file"@),
            VerifierArgument::AnnotationFileFlag => Some("--annotation_file"@),
            VerifierArgument::ExtraOutputFileFlag => Some("--extra_output_file"@),
            VerifierArgument::InFile => None,
            VerifierArgument::AnnotationFile => None,
            VerifierArgument::ExtraOutputFile => None,
        }
    }

    /// The text of an argument that is a fixed word, and nothing for the
    /// place of a file.
    pub fn text(&self) -> (text: Option<String>)
        ensures
            match self.fixed_text() {
                Some(word) => text.is_some() && text.unwrap()@ == word,
                None => text.is_none(),
            },
    {
        match self {
            VerifierArgument::ProgramName => Some(String::from_str("cpu_air_verifier")),
            VerifierArgument::InFileFlag => Some(String::from_str("--in_file")),
            VerifierArgument::AnnotationFileFlag => Some(String::from_str("--annotation_file")),
            VerifierArgument::ExtraOutputFileFlag => Some(String::from_str("--extra_output_file")),
            VerifierArgument::InFile => None,
            VerifierArgument::AnnotationFile => None,
            VerifierArgument::ExtraOutputFile => None,
        }
    }
}

/// The arguments that the verifier is started with: its own name, the proof
/// file, and then each annotation file that was asked for, every file behind
/// the flag that announces it.
pub open spec fn verifier_command_line(
    with_annotation_file: bool,
    with_extra_output_file: bool,
) -> Seq<VerifierArgument> {
    let proof = seq![
        VerifierArgument::ProgramName,
        VerifierArgument::InFileFlag,
        VerifierArgument::InFile,
    ];
    let annotations = if with_annotation_file {
        seq![VerifierArgument::AnnotationFileFlag, VerifierArgument::AnnotationFile]
    } else {
        Seq::<VerifierArgument>::empty()
    };
    let extra_output = if with_extra_output_file {
        seq![VerifierArgument::ExtraOutputFileFlag, VerifierArgument::ExtraOutputFile]
    } else {
        Seq::<VerifierArgument>::empty()
    };
    proof + annotations + extra_output
}

/// The arguments with which the verifier checks a proof.
///
/// * `with_annotation_file`: whether the verifier is to write its annotations.
/// * `with_extra_output_file`: whether it is to write the extra annotations.
pub fn verifier_arguments(
    with_annotation_file: bool,
    with_extra_output_file: bool,
) -> (arguments: Vec<VerifierArgument>)
    ensures
        arguments@ == verifier_command_line(with_annotation_file, with_extra_output_file),
{
    let mut arguments: Vec<VerifierArgument> = Vec::new();
    arguments.push(VerifierArgument::ProgramName);
    arguments.push(VerifierArgument::InFileFlag);
    arguments.push(VerifierArgument::InFile);

    if with_annotation_file {
        arguments.push(VerifierArgument::AnnotationFileFlag);
        arguments.push(VerifierArgument::AnnotationFile);
    }
    if with_extra_output_file {
        arguments.push(VerifierArgument::ExtraOutputFileFlag);
        arguments.push(VerifierArgument::ExtraOutputFile);
    }
    assert(arguments@ =~= verifier_command_line(with_annotation_file, with_extra_output_file));
    arguments
}

} // verus!
