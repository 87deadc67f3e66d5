use vstd::prelude::*;

verus! {

/// The kinds of output a parsed filing can be saved as.
#[derive(Debug, Clone, Copy, PartialEq, Eq, Structural)]
pub enum OutputFormat {
    /// The array of facts, as JSON.
    Json,
    /// The table of facts, as CSV.
    Facts,
    /// The table of dimensions, as CSV.
    Dimensions,
}

/// The format that a configuration word names, if any.
pub open spec fn format_named(name: Seq<char>) -> Option<OutputFormat> {
    if name == "json"@ {
        Some(OutputFormat::Json)
    } else if name == "facts"@ {
        Some(OutputFormat::Facts)
    } else if name == "dimensions"@ {
        Some(OutputFormat::Dimensions)
    } else {
        None
    }
}

/// The name of the file that holds one filing's output in format `f`.
pub open spec fn output_file_name(f: OutputFormat, xml_name: Seq<char>) -> Seq<char> {
    match f {
        OutputFormat::Json => xml_name + ".json"@,
        OutputFormat::Facts => "facts_"@ + xml_name + ".csv"@,
        OutputFormat::Dimensions => "dimensions_"@ + xml_name + ".csv"@,
    }
}

impl OutputFormat {
    /// Reads a configuration word: `json`, `facts` or `dimensions`.
    pub fn parse(name: &String) -> (r: Option<OutputFormat>)
        ensures
            r == format_named(name@),
    {
        if *name == String::from_str("json") {
            Some(OutputFormat::Json)
        } else if *name == String::from_str("facts") {
            Some(OutputFormat::Facts)
        } else if *name == String::from_str("dimensions") {
            Some(OutputFormat::Dimensions)
        } else {
            None
        }
    }

    /// The name of the file that holds the output of the filing named `xml_name`.
    pub fn file_name(&self, xml_name: &String) -> (r: String)
        ensures
            r@ == output_file_name(*self, xml_name@),
    {
        match self {
            OutputFormat::Json => {
                let mut name = xml_name.clone();
                name.append(".json");
                name
            },
            OutputFormat::Facts => {
                let mut name = String::from_str("facts_");
                name.append(xml_name.as_str());
                name.append(".csv");
                name
            },
            OutputFormat::Dimensions => {
                let mut name = String::from_str("dimensions_");
                name.append(xml_name.as_str());
                name.append(".csv");
                name
            },
        }
    }
}

/// The rows of one parsed filing, ready to be saved in one format.
pub enum Output<J, F, D> {
    Json(Vec<J>),
    Facts(Vec<F>),
    Dimensions(Vec<D>),
}

impl<J, F, D> Output<J, F, D> {
    /// The format these rows are saved in.
    pub fn format(&self) -> (r: OutputFormat)
        ensures
            r == (match self {
                Output::Json(_) => OutputFormat::Json,
                Output::Facts(_) => OutputFormat::Facts,
                Output::Dimensions(_) => OutputFormat::Dimensions,
            }),
    {
        match self {
            Output::Json(_) => OutputFormat::Json,
            Output::Facts(_) => OutputFormat::Facts,
            Output::Dimensions(_) => OutputFormat::Dimensions,
        }
    }
}

} // verus!
