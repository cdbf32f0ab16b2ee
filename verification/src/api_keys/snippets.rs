//! Copy-paste code snippets that show how to call the local endpoint.
use vstd::prelude::*;
use super::types::CodeSnippet;

verus! {

/// The text of the `curl` snippet.
pub open spec fn curl_snippet_text(endpoint_url: Seq<char>, secret_key: Seq<char>, model_id: Seq<char>) -> Seq<char> {
    "curl \""@
        + endpoint_url
        + "/chat/completions\" \\\n  -H \"Authorization: Bearer "@
        + secret_key
        + "\" \\\n  -H \"Content-Type: application/json\" \\\n  -d '{\n    \"model\": \""@
        + model_id
        + "\",\n    \"messages\": [\n      { \"role\": \"user\", \"content\": \"Hello from SelfAPI\" }\n    ]\n  }'"@
}

/// The text of the `python` snippet.
pub open spec fn python_snippet_text(endpoint_url: Seq<char>, secret_key: Seq<char>, model_id: Seq<char>) -> Seq<char> {
    "from openai import OpenAI\n\nclient = OpenAI(\n    base_url=\""@
        + endpoint_url
        + "\",\n    api_key=\""@
        + secret_key
        + "\",\n)\n\nresponse = client.chat.completions.create(\n    model=\""@
        + model_id
        + "\",\n    messages=[\n        {\"role\": \"user\", \"content\": \"Hello from SelfAPI\"},\n    ],\n)\n\nprint(response.choices[0].message.content)"@
}

/// The text of the `javascript` snippet.
pub open spec fn javascript_snippet_text(endpoint_url: Seq<char>, secret_key: Seq<char>, model_id: Seq<char>) -> Seq<char> {
    "import OpenAI from \"openai\";\n\nconst client = new OpenAI({\n  baseURL: \""@
        + endpoint_url
        + "\",\n  apiKey: \""@
        + secret_key
        + "\",\n});\n\nconst response = await client.chat.completions.create({\n  model: \""@
        + model_id
        + "\",\n  messages: [\n    { role: \"user\", content: \"Hello from SelfAPI\" },\n  ],\n});\n\nconsole.log(response.choices[0].message.content);"@
}

/// The text of the `embeddings` snippet.
pub open spec fn embeddings_snippet_text(endpoint_url: Seq<char>, secret_key: Seq<char>, model_id: Seq<char>) -> Seq<char> {
    "from openai import OpenAI\n\nclient = OpenAI(\n    base_url=\""@
        + endpoint_url
        + "\",\n    api_key=\""@
        + secret_key
        + "\",\n)\n\nres = client.embeddings.create(\n    model=\""@
        + model_id
        + "\",\n    input=\"SelfAPI local vector embeddings test\",\n)\n\nprint(f\"Embedding vector dimensions: {len(res.data[0].embedding)}\")"@
}

/// The text of the `docker` snippet.
pub open spec fn docker_snippet_text(endpoint_url: Seq<char>, secret_key: Seq<char>, model_id: Seq<char>) -> Seq<char> {
    "version: '3.8'\nservices:\n  open-webui:\n    image: ghcr.io/open-webui/open-webui:main\n    ports:\n      - \"3000:8080\"\n    environment:\n      - OPENAI_API_BASE_URL="@
        + endpoint_url
        + "\n      - OPENAI_API_KEY="@
        + secret_key
        + "\n    restart: always"@
}

fn build_curl_snippet(endpoint_url: &str, secret_key: &str, model_id: &str) -> (s: String)
    ensures
        s@ == curl_snippet_text(endpoint_url@, secret_key@, model_id@),
{
    let mut s = String::from_str("curl \"");
    s.append(endpoint_url);
    s.append("/chat/completions\" \\\n  -H \"Authorization: Bearer ");
    s.append(secret_key);
    s.append("\" \\\n  -H \"Content-Type: application/json\" \\\n  -d '{\n    \"model\": \"");
    s.append(model_id);
    s.append("\",\n    \"messages\": [\n      { \"role\": \"user\", \"content\": \"Hello from SelfAPI\" }\n    ]\n  }'");
    s
}

fn build_python_snippet(endpoint_url: &str, secret_key: &str, model_id: &str) -> (s: String)
    ensures
        s@ == python_snippet_text(endpoint_url@, secret_key@, model_id@),
{
    let mut s = String::from_str("from openai import OpenAI\n\nclient = OpenAI(\n    base_url=\"");
    s.append(endpoint_url);
    s.append("\",\n    api_key=\"");
    s.append(secret_key);
    s.append("\",\n)\n\nresponse = client.chat.completions.create(\n    model=\"");
    s.append(model_id);
    s.append("\",\n    messages=[\n        {\"role\": \"user\", \"content\": \"Hello from SelfAPI\"},\n    ],\n)\n\nprint(response.choices[0].message.content)");
    s
}

fn build_javascript_snippet(endpoint_url: &str, secret_key: &str, model_id: &str) -> (s: String)
    ensures
        s@ == javascript_snippet_text(endpoint_url@, secret_key@, model_id@),
{
    let mut s = String::from_str("import OpenAI from \"openai\";\n\nconst client = new OpenAI({\n  baseURL: \"");
    s.append(endpoint_url);
    s.append("\",\n  apiKey: \"");
    s.append(secret_key);
    s.append("\",\n});\n\nconst response = await client.chat.completions.create({\n  model: \"");
    s.append(model_id);
    s.append("\",\n  messages: [\n    { role: \"user\", content: \"Hello from SelfAPI\" },\n  ],\n});\n\nconsole.log(response.choices[0].message.content);");
    s
}

fn build_embeddings_snippet(endpoint_url: &str, secret_key: &str, model_id: &str) -> (s: String)
    ensures
        s@ == embeddings_snippet_text(endpoint_url@, secret_key@, model_id@),
{
    let mut s = String::from_str("from openai import OpenAI\n\nclient = OpenAI(\n    base_url=\"");
    s.append(endpoint_url);
    s.append("\",\n    api_key=\"");
    s.append(secret_key);
    s.append("\",\n)\n\nres = client.embeddings.create(\n    model=\"");
    s.append(model_id);
    s.append("\",\n    input=\"SelfAPI local vector embeddings test\",\n)\n\nprint(f\"Embedding vector dimensions: {len(res.data[0].embedding)}\")");
    s
}

fn build_docker_snippet(endpoint_url: &str, secret_key: &str, _model_id: &str) -> (s: String)
    ensures
        s@ == docker_snippet_text(endpoint_url@, secret_key@, _model_id@),
{
    let mut s = String::from_str("version: '3.8'\nservices:\n  open-webui:\n    image: ghcr.io/open-webui/open-webui:main\n    ports:\n      - \"3000:8080\"\n    environment:\n      - OPENAI_API_BASE_URL=");
    s.append(endpoint_url);
    s.append("\n      - OPENAI_API_KEY=");
    s.append(secret_key);
    s.append("\n    restart: always");
    s
}

/// Whether `s` is the snippet with the given language, label and code.
pub open spec fn snippet_is(s: CodeSnippet, language: Seq<char>, label: Seq<char>, code: Seq<char>) -> bool {
    s.language@ == language && s.label@ == label && s.code@ == code
}

/// The five snippets for an endpoint, key and model: curl, Python,
/// JavaScript, embeddings in Python, and a Docker Compose service.
pub open spec fn snippets_for(v: Seq<CodeSnippet>, e: Seq<char>, k: Seq<char>, m: Seq<char>) -> bool {
    &&& v.len() == 5
    &&& snippet_is(v[0], "bash"@, "curl"@, curl_snippet_text(e, k, m))
    &&& snippet_is(v[1], "python"@, "Python"@, python_snippet_text(e, k, m))
    &&& snippet_is(v[2], "javascript"@, "JavaScript"@, javascript_snippet_text(e, k, m))
    &&& snippet_is(v[3], "python"@, "Embeddings"@, embeddings_snippet_text(e, k, m))
    &&& snippet_is(v[4], "yaml"@, "Docker Compose"@, docker_snippet_text(e, k, m))
}

/// The code snippets for calling `endpoint_url` with `secret_key` and `model_id`.
pub fn build_snippets(endpoint_url: &str, secret_key: &str, model_id: &str) -> (v: Vec<CodeSnippet>)
    ensures
        snippets_for(v@, endpoint_url@, secret_key@, model_id@),
{
    let mut v: Vec<CodeSnippet> = Vec::new();
    v.push(CodeSnippet {
        language: String::from_str("bash"),
        label: String::from_str("curl"),
        code: build_curl_snippet(endpoint_url, secret_key, model_id),
    });
    v.push(CodeSnippet {
        language: String::from_str("python"),
        label: String::from_str("Python"),
        code: build_python_snippet(endpoint_url, secret_key, model_id),
    });
    v.push(CodeSnippet {
        language: String::from_str("javascript"),
        label: String::from_str("JavaScript"),
        code: build_javascript_snippet(endpoint_url, secret_key, model_id),
    });
    v.push(CodeSnippet {
        language: String::from_str("python"),
        label: String::from_str("Embeddings"),
        code: build_embeddings_snippet(endpoint_url, secret_key, model_id),
    });
    v.push(CodeSnippet {
        language: String::from_str("yaml"),
        label: String::from_str("Docker Compose"),
        code: build_docker_snippet(endpoint_url, secret_key, model_id),
    });
    v
}

} // verus!
