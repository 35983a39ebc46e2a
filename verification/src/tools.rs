//! The built-in tools' declared surface: name, description and input
//! schema. Executing a tool — float arithmetic, a search request, a page
//! fetch — is outside work performed by the driver; only the declarations
//! the registry and the backends see are defined here.

use vstd::prelude::*;
use vstd::string::StringExecFns;
use crate::provider::Tool;

verus! {

/// The JSON schema of the calculator's input.
pub open spec fn calculator_schema() -> Seq<char> {
    "{\"type\":\"object\",\"properties\":{\"operation\":{\"type\":\"string\",\"enum\":[\"add\",\"subtract\",\"multiply\",\"divide\"],\"description\":\"The arithmetic operation to perform\"},\"a\":{\"type\":\"number\",\"description\":\"First number\"},\"b\":{\"type\":\"number\",\"description\":\"Second number\"}},\"required\":[\"operation\",\"a\",\"b\"]}"@
}

/// The JSON schema of the web search tool's input.
pub open spec fn web_search_schema() -> Seq<char> {
    "{\"type\":\"object\",\"properties\":{\"search_term\":{\"type\":\"string\",\"description\":\"query text\"}},\"required\":[\"search_term\"]}"@
}

/// The JSON schema of the web scrape tool's input.
pub open spec fn web_scrape_schema() -> Seq<char> {
    "{\"type\":\"object\",\"properties\":{\"titles\":{\"type\":\"array\",\"description\":\"array of titles from the search\",\"items\":{\"type\":\"string\"}},\"links\":{\"type\":\"array\",\"description\":\"array of links from the search\",\"items\":{\"type\":\"string\"}}},\"required\":[\"titles\",\"links\"]}"@
}

/// Basic arithmetic over two numbers.
#[derive(Clone, Copy, Debug, PartialEq, Eq, Structural)]
pub struct Calculator;

impl Calculator {
    /// The tool's registered name.
    pub fn name(&self) -> (r: String)
        ensures
            r@ == "calculator"@,
    {
        String::from_str("calculator")
    }

    /// What the backend is told the tool does.
    pub fn description(&self) -> (r: String)
        ensures
            r@ == "Perform basic arithmetic operations (add, subtract, multiply, divide)"@,
    {
        String::from_str("Perform basic arithmetic operations (add, subtract, multiply, divide)")
    }

    /// The declared input schema.
    pub fn input_schema(&self) -> (r: String)
        ensures
            r@ == calculator_schema(),
    {
        String::from_str(
            "{\"type\":\"object\",\"properties\":{\"operation\":{\"type\":\"string\",\"enum\":[\"add\",\"subtract\",\"multiply\",\"divide\"],\"description\":\"The arithmetic operation to perform\"},\"a\":{\"type\":\"number\",\"description\":\"First number\"},\"b\":{\"type\":\"number\",\"description\":\"Second number\"}},\"required\":[\"operation\",\"a\",\"b\"]}",
        )
    }

    /// The backend-neutral declaration.
    pub fn declaration(&self) -> (r: Tool)
        ensures
            r@.name == "calculator"@,
            r@.description == "Perform basic arithmetic operations (add, subtract, multiply, divide)"@,
            r@.input_schema == calculator_schema(),
    {
        Tool {
            name: self.name(),
            description: self.description(),
            input_schema: self.input_schema(),
        }
    }
}

/// A search against a web search engine, returning result links.
#[derive(Clone, Copy, Debug, PartialEq, Eq, Structural)]
pub struct WebSearch;

impl WebSearch {
    /// The tool's registered name.
    pub fn name(&self) -> (r: String)
        ensures
            r@ == "WebSearch"@,
    {
        String::from_str("WebSearch")
    }

    /// What the backend is told the tool does.
    pub fn description(&self) -> (r: String)
        ensures
            r@ == "This tool uses Google Search and returns some links"@,
    {
        String::from_str("This tool uses Google Search and returns some links")
    }

    /// The declared input schema.
    pub fn input_schema(&self) -> (r: String)
        ensures
            r@ == web_search_schema(),
    {
        String::from_str(
            "{\"type\":\"object\",\"properties\":{\"search_term\":{\"type\":\"string\",\"description\":\"query text\"}},\"required\":[\"search_term\"]}",
        )
    }

    /// The backend-neutral declaration.
    pub fn declaration(&self) -> (r: Tool)
        ensures
            r@.name == "WebSearch"@,
            r@.description == "This tool uses Google Search and returns some links"@,
            r@.input_schema == web_search_schema(),
    {
        Tool {
            name: self.name(),
            description: self.description(),
            input_schema: self.input_schema(),
        }
    }
}

/// A fetch of given pages, reduced to their text content.
#[derive(Clone, Copy, Debug, PartialEq, Eq, Structural)]
pub struct WebScrape;

impl WebScrape {
    /// The tool's registered name.
    pub fn name(&self) -> (r: String)
        ensures
            r@ == "WebScrape"@,
    {
        String::from_str("WebScrape")
    }

    /// What the backend is told the tool does.
    pub fn description(&self) -> (r: String)
        ensures
            r@ == "This tool gives the actual content of the page and returns text for which the user has asked"@,
    {
        String::from_str(
            "This tool gives the actual content of the page and returns text for which the user has asked",
        )
    }

    /// The declared input schema.
    pub fn input_schema(&self) -> (r: String)
        ensures
            r@ == web_scrape_schema(),
    {
        String::from_str(
            "{\"type\":\"object\",\"properties\":{\"titles\":{\"type\":\"array\",\"description\":\"array of titles from the search\",\"items\":{\"type\":\"string\"}},\"links\":{\"type\":\"array\",\"description\":\"array of links from the search\",\"items\":{\"type\":\"string\"}}},\"required\":[\"titles\",\"links\"]}",
        )
    }

    /// The backend-neutral declaration.
    pub fn declaration(&self) -> (r: Tool)
        ensures
            r@.name == "WebScrape"@,
            r@.description == "This tool gives the actual content of the page and returns text for which the user has asked"@,
            r@.input_schema == web_scrape_schema(),
    {
        Tool {
            name: self.name(),
            description: self.description(),
            input_schema: self.input_schema(),
        }
    }
}

} // verus!
